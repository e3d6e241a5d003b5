//! The player's progress: statistics, equipment, items, magic and story
//! flags, and how a save file frames them.
//!
//! Progress is not saved directly. It is converted to a storage-stable form
//! with a version number ([`v1`]), and a save file is a header line that
//! names the version, followed by the data in that form.
pub mod v1;

use vstd::prelude::*;
use vstd::string::*;
use crate::numeric::{add_clamped, clamp_i32, sub_clamped};
use crate::progress::v1::{ArmorV1, ItemSlotV1, ItemV1, MagicSlotV1, MagicV1, ProgressV1, WeaponV1};
use crate::strings::{
    chars_of, decimal, pad_left, pad_right, clipped, push_decimal, push_decimal_right_aligned,
    push_left_aligned, push_str, string_from_chars,
};

verus! {

pub struct Armor {
    pub name: String,
    pub defense: i32,
}

#[derive(Clone, Copy, Debug, PartialEq, Eq, Structural)]
pub enum Item {
    Salve,
    XSalve,
    Tonic,
    XTonic,
}

pub struct ItemSlot {
    pub item: Item,
    pub amount: i32,
}

#[derive(Clone, Copy, Debug, PartialEq, Eq, Structural)]
pub enum Magic {
    Heal,
    EarthEdge,
    WaterEdge,
    FireEdge,
}

pub struct MagicSlot {
    pub magic: Magic,
    pub known: bool,
}

pub struct Weapon {
    pub name: String,
    pub attack: i32,
}

pub struct Progress {
    pub hp: i32,
    pub max_hp: i32,
    pub mp: i32,
    pub max_mp: i32,
    pub attack: i32,
    pub defense: i32,
    pub level: i32,
    pub exp: i32,
    pub base_exp: i32,
    pub weapon: Option<Weapon>,
    pub armor: Option<Armor>,
    pub items: Vec<ItemSlot>,
    pub magic: Vec<MagicSlot>,
    pub collected_chests: Vec<String>,
    pub turned_levers: Vec<String>,
    pub steps: Vec<i32>,
    pub earth_defeated: bool,
    pub water_defeated: bool,
    pub fire_defeated: bool,
}

/// Why a save file could not be read or written.
#[derive(Clone, Copy, Debug, PartialEq, Eq, Structural)]
pub enum SaveError {
    StorageError,
    NoSaveFile,
    InvalidSaveData,
    MissingVersionNumber,
    FailedToParseVersion,
    InvalidSaveVersion,
    UnknownSaveVersion,
    FailedToParseSaveData,
}

/// Number of levels that can be gained through experience.
pub const NUM_EXP_LEVELS: usize = 29;

/// Number of step counters: one for each encounter group and one for towns.
pub const NUM_STEP_COUNTS: usize = 7;

/// Number of item slots, and of magic slots.
pub const NUM_SLOTS: usize = 4;

/// Version of the storage form that save files are written in.
pub const SAVE_VERSION: u32 = 1;

/// Experience that takes the player from `level` to the next one; `None`
/// from the last level on that experience leads to.
pub open spec fn exp_for_next_level(level: int) -> Option<i32> {
    if level == 1 {
        Some(40i32)
    } else if level == 2 {
        Some(80i32)
    } else if level == 3 {
        Some(100i32)
    } else if level == 4 {
        Some(120i32)
    } else if level == 5 {
        Some(275i32)
    } else if level == 6 {
        Some(450i32)
    } else if level == 7 {
        Some(480i32)
    } else if level == 8 {
        Some(500i32)
    } else if level == 9 {
        Some(825i32)
    } else if level == 10 {
        Some(1160i32)
    } else if level == 11 {
        Some(1200i32)
    } else if level == 12 {
        Some(1230i32)
    } else if level == 13 {
        Some(1940i32)
    } else if level == 14 {
        Some(2680i32)
    } else if level == 15 {
        Some(2735i32)
    } else if level == 16 {
        Some(2785i32)
    } else if level == 17 {
        Some(4350i32)
    } else if level == 18 {
        Some(5975i32)
    } else if level == 19 {
        Some(6065i32)
    } else if level == 20 {
        Some(6150i32)
    } else if level == 21 {
        Some(9575i32)
    } else if level == 22 {
        Some(13080i32)
    } else if level == 23 {
        Some(13235i32)
    } else if level == 24 {
        Some(13380i32)
    } else if level == 25 {
        Some(16000i32)
    } else if level == 26 {
        Some(19250i32)
    } else if level == 27 {
        Some(23000i32)
    } else if level == 28 {
        Some(28000i32)
    } else if level == 29 {
        Some(33300i32)
    } else {
        None
    }
}

fn exp_table() -> (table: [i32; NUM_EXP_LEVELS])
    ensures
        forall|i: int|
            0 <= i < NUM_EXP_LEVELS ==> exp_for_next_level(i + 1) == Some(#[trigger] table@[i]),
{
    [
        40,
        80,
        100,
        120,
        275,
        450,
        480,
        500,
        825,
        1160,
        1200,
        1230,
        1940,
        2680,
        2735,
        2785,
        4350,
        5975,
        6065,
        6150,
        9575,
        13080,
        13235,
        13380,
        16000,
        19250,
        23000,
        28000,
        33300,
    ]
}

impl SaveError {
    /// The error in words.
    pub fn message(self) -> (s: &'static str)
        ensures
            s@ == self.spec_message(),
    {
        match self {
            SaveError::StorageError => "storage error",
            SaveError::NoSaveFile => "no save file found",
            SaveError::InvalidSaveData => "invalid save data",
            SaveError::MissingVersionNumber => "missing version number",
            SaveError::FailedToParseVersion => "failed to parse version",
            SaveError::InvalidSaveVersion => "invalid save version",
            SaveError::UnknownSaveVersion => "unknown save version",
            SaveError::FailedToParseSaveData => "failed to parse save data",
        }
    }

    pub open spec fn spec_message(self) -> Seq<char> {
        match self {
            SaveError::StorageError => "storage error"@,
            SaveError::NoSaveFile => "no save file found"@,
            SaveError::InvalidSaveData => "invalid save data"@,
            SaveError::MissingVersionNumber => "missing version number"@,
            SaveError::FailedToParseVersion => "failed to parse version"@,
            SaveError::InvalidSaveVersion => "invalid save version"@,
            SaveError::UnknownSaveVersion => "unknown save version"@,
            SaveError::FailedToParseSaveData => "failed to parse save data"@,
        }
    }
}

impl Armor {
    /// The armor in its storage form.
    pub fn to_v1(&self) -> (l: ArmorV1)
        ensures
            l.name@ == self.name@,
            l.defense == self.defense,
    {
        ArmorV1 { name: self.name.clone(), defense: self.defense }
    }

    /// The armor that a storage form stands for.
    pub fn from(l: ArmorV1) -> (s: Armor)
        ensures
            s.name == l.name,
            s.defense == l.defense,
    {
        Armor { name: l.name, defense: l.defense }
    }
}

impl Weapon {
    /// The weapon in its storage form.
    pub fn to_v1(&self) -> (l: WeaponV1)
        ensures
            l.name@ == self.name@,
            l.attack == self.attack,
    {
        WeaponV1 { name: self.name.clone(), attack: self.attack }
    }

    /// The weapon that a storage form stands for.
    pub fn from(l: WeaponV1) -> (s: Weapon)
        ensures
            s.name == l.name,
            s.attack == l.attack,
    {
        Weapon { name: l.name, attack: l.attack }
    }
}

impl Item {
    pub open spec fn spec_description(self) -> Seq<char> {
        match self {
            Item::Salve => "Heals 30% of max HP."@,
            Item::XSalve => "Heals all HP."@,
            Item::Tonic => "Restores 30% of max MP."@,
            Item::XTonic => "Restores all MP."@,
        }
    }

    pub open spec fn spec_name(self) -> Seq<char> {
        match self {
            Item::Salve => "Salve"@,
            Item::XSalve => "XSalve"@,
            Item::Tonic => "Tonic"@,
            Item::XTonic => "XTonic"@,
        }
    }

    pub open spec fn spec_to_v1(self) -> ItemV1 {
        match self {
            Item::Salve => ItemV1::Salve,
            Item::XSalve => ItemV1::XSalve,
            Item::Tonic => ItemV1::Tonic,
            Item::XTonic => ItemV1::XTonic,
        }
    }

    pub open spec fn spec_from(l: ItemV1) -> Item {
        match l {
            ItemV1::Salve => Item::Salve,
            ItemV1::XSalve => Item::XSalve,
            ItemV1::Tonic => Item::Tonic,
            ItemV1::XTonic => Item::XTonic,
        }
    }

    pub fn description(self) -> (s: &'static str)
        ensures
            s@ == self.spec_description(),
    {
        match self {
            Item::Salve => "Heals 30% of max HP.",
            Item::XSalve => "Heals all HP.",
            Item::Tonic => "Restores 30% of max MP.",
            Item::XTonic => "Restores all MP.",
        }
    }

    pub fn name(self) -> (s: &'static str)
        ensures
            s@ == self.spec_name(),
    {
        match self {
            Item::Salve => "Salve",
            Item::XSalve => "XSalve",
            Item::Tonic => "Tonic",
            Item::XTonic => "XTonic",
        }
    }

    /// The item in its storage form.
    pub fn to_v1(self) -> (l: ItemV1)
        ensures
            l == self.spec_to_v1(),
    {
        match self {
            Item::Salve => ItemV1::Salve,
            Item::XSalve => ItemV1::XSalve,
            Item::Tonic => ItemV1::Tonic,
            Item::XTonic => ItemV1::XTonic,
        }
    }

    /// The item that a storage form stands for.
    pub fn from(l: ItemV1) -> (s: Item)
        ensures
            s == Item::spec_from(l),
    {
        match l {
            ItemV1::Salve => Item::Salve,
            ItemV1::XSalve => Item::XSalve,
            ItemV1::Tonic => Item::Tonic,
            ItemV1::XTonic => Item::XTonic,
        }
    }
}

impl ItemSlot {
    /// Line of the slot in the battle menu: the name in nine columns, then
    /// the amount in two; nothing where the player has none.
    pub open spec fn spec_battle_menu_entry(&self) -> Seq<char> {
        if self.amount > 0 {
            pad_right(clipped(self.item.spec_name(), 9), 9) + pad_left(
                decimal(self.amount as int),
                2,
            )
        } else {
            Seq::<char>::empty()
        }
    }

    /// Line of the slot in the main menu: the name in sixteen columns, the
    /// amount in two, and the most that can be carried.
    pub open spec fn spec_main_menu_entry(&self) -> Seq<char> {
        if self.amount > 0 {
            pad_right(clipped(self.item.spec_name(), 16), 16) + " "@ + pad_left(
                decimal(self.amount as int),
                2,
            ) + " / 9"@
        } else {
            Seq::<char>::empty()
        }
    }

    /// What the item does, or nothing where the player has none.
    pub open spec fn spec_description(&self) -> Seq<char> {
        if self.amount > 0 {
            self.item.spec_description()
        } else {
            ""@
        }
    }

    /// What the item does, or nothing where the player has none.
    pub fn description(&self) -> (s: &'static str)
        ensures
            s@ == self.spec_description(),
    {
        if self.amount > 0 {
            self.item.description()
        } else {
            ""
        }
    }

    pub fn battle_menu_entry(&self) -> (s: String)
        ensures
            s@ == self.spec_battle_menu_entry(),
    {
        let mut out: Vec<char> = Vec::new();
        if self.amount > 0 {
            let name = chars_of(self.item.name());
            push_left_aligned(&mut out, &name, 9, 9);
            push_decimal_right_aligned(&mut out, self.amount as i64, 2);
        }
        string_from_chars(&out)
    }

    pub fn main_menu_entry(&self) -> (s: String)
        ensures
            s@ == self.spec_main_menu_entry(),
    {
        let mut out: Vec<char> = Vec::new();
        if self.amount > 0 {
            let name = chars_of(self.item.name());
            push_left_aligned(&mut out, &name, 16, 16);
            push_str(&mut out, " ");
            push_decimal_right_aligned(&mut out, self.amount as i64, 2);
            push_str(&mut out, " / 9");
        }
        string_from_chars(&out)
    }

    /// The slot in its storage form.
    pub fn to_v1(&self) -> (l: ItemSlotV1)
        ensures
            l.item == self.item.spec_to_v1(),
            l.amount == self.amount,
    {
        ItemSlotV1 { item: self.item.to_v1(), amount: self.amount }
    }

    /// The slot that a storage form stands for.
    pub fn from(l: ItemSlotV1) -> (s: ItemSlot)
        ensures
            s.item == Item::spec_from(l.item),
            s.amount == l.amount,
    {
        ItemSlot { item: Item::from(l.item), amount: l.amount }
    }
}

impl Magic {
    pub open spec fn spec_description(self) -> Seq<char> {
        match self {
            Magic::Heal => "Heals 50% of max HP."@,
            Magic::EarthEdge => "Deals earth damage."@,
            Magic::WaterEdge => "Deals water damage."@,
            Magic::FireEdge => "Deals fire damage."@,
        }
    }

    pub open spec fn spec_name(self) -> Seq<char> {
        match self {
            Magic::Heal => "Heal"@,
            Magic::EarthEdge => "EarthEdge"@,
            Magic::WaterEdge => "WaterEdge"@,
            Magic::FireEdge => "FireEdge"@,
        }
    }

    pub open spec fn spec_mp_cost(self) -> i32 {
        match self {
            Magic::Heal => 4i32,
            Magic::EarthEdge => 1i32,
            Magic::WaterEdge => 1i32,
            Magic::FireEdge => 1i32,
        }
    }

    pub open spec fn spec_to_v1(self) -> MagicV1 {
        match self {
            Magic::Heal => MagicV1::Heal,
            Magic::EarthEdge => MagicV1::EarthEdge,
            Magic::WaterEdge => MagicV1::WaterEdge,
            Magic::FireEdge => MagicV1::FireEdge,
        }
    }

    pub open spec fn spec_from(l: MagicV1) -> Magic {
        match l {
            MagicV1::Heal => Magic::Heal,
            MagicV1::EarthEdge => Magic::EarthEdge,
            MagicV1::WaterEdge => Magic::WaterEdge,
            MagicV1::FireEdge => Magic::FireEdge,
        }
    }

    pub fn description(self) -> (s: &'static str)
        ensures
            s@ == self.spec_description(),
    {
        match self {
            Magic::Heal => "Heals 50% of max HP.",
            Magic::EarthEdge => "Deals earth damage.",
            Magic::WaterEdge => "Deals water damage.",
            Magic::FireEdge => "Deals fire damage.",
        }
    }

    pub fn name(self) -> (s: &'static str)
        ensures
            s@ == self.spec_name(),
    {
        match self {
            Magic::Heal => "Heal",
            Magic::EarthEdge => "EarthEdge",
            Magic::WaterEdge => "WaterEdge",
            Magic::FireEdge => "FireEdge",
        }
    }

    #[verifier::when_used_as_spec(spec_mp_cost)]
    pub fn mp_cost(self) -> (cost: i32)
        ensures
            cost == self.spec_mp_cost(),
    {
        match self {
            Magic::Heal => 4,
            Magic::EarthEdge => 1,
            Magic::WaterEdge => 1,
            Magic::FireEdge => 1,
        }
    }

    /// The magic in its storage form.
    pub fn to_v1(self) -> (l: MagicV1)
        ensures
            l == self.spec_to_v1(),
    {
        match self {
            Magic::Heal => MagicV1::Heal,
            Magic::EarthEdge => MagicV1::EarthEdge,
            Magic::WaterEdge => MagicV1::WaterEdge,
            Magic::FireEdge => MagicV1::FireEdge,
        }
    }

    /// The magic that a storage form stands for.
    pub fn from(l: MagicV1) -> (s: Magic)
        ensures
            s == Magic::spec_from(l),
    {
        match l {
            MagicV1::Heal => Magic::Heal,
            MagicV1::EarthEdge => Magic::EarthEdge,
            MagicV1::WaterEdge => Magic::WaterEdge,
            MagicV1::FireEdge => Magic::FireEdge,
        }
    }
}

impl MagicSlot {
    /// Line of the slot in the battle menu: the name in nine columns, the
    /// cost in two, and the unit; nothing where the magic is not known.
    pub open spec fn spec_battle_menu_entry(&self) -> Seq<char> {
        if self.known {
            pad_right(clipped(self.magic.spec_name(), 9), 9) + pad_left(
                decimal(self.magic.mp_cost() as int),
                2,
            ) + "MP"@
        } else {
            Seq::<char>::empty()
        }
    }

    /// Line of the slot in the main menu: the name in eighteen columns, the
    /// cost in two, and the unit.
    pub open spec fn spec_main_menu_entry(&self) -> Seq<char> {
        if self.known {
            pad_right(clipped(self.magic.spec_name(), 18), 18) + pad_left(
                decimal(self.magic.mp_cost() as int),
                2,
            ) + " MP"@
        } else {
            Seq::<char>::empty()
        }
    }

    pub fn battle_menu_entry(&self) -> (s: String)
        ensures
            s@ == self.spec_battle_menu_entry(),
    {
        let mut out: Vec<char> = Vec::new();
        if self.known {
            let name = chars_of(self.magic.name());
            push_left_aligned(&mut out, &name, 9, 9);
            push_decimal_right_aligned(&mut out, self.magic.mp_cost() as i64, 2);
            push_str(&mut out, "MP");
        }
        string_from_chars(&out)
    }

    /// What the magic does, or nothing where it is not known.
    pub open spec fn spec_description(&self) -> Seq<char> {
        if self.known {
            self.magic.spec_description()
        } else {
            ""@
        }
    }

    /// What the magic does, or nothing where it is not known.
    pub fn description(&self) -> (s: &'static str)
        ensures
            s@ == self.spec_description(),
    {
        if self.known {
            self.magic.description()
        } else {
            ""
        }
    }

    pub fn main_menu_entry(&self) -> (s: String)
        ensures
            s@ == self.spec_main_menu_entry(),
    {
        let mut out: Vec<char> = Vec::new();
        if self.known {
            let name = chars_of(self.magic.name());
            push_left_aligned(&mut out, &name, 18, 18);
            push_decimal_right_aligned(&mut out, self.magic.mp_cost() as i64, 2);
            push_str(&mut out, " MP");
        }
        string_from_chars(&out)
    }

    /// The slot in its storage form.
    pub fn to_v1(&self) -> (l: MagicSlotV1)
        ensures
            l.magic == self.magic.spec_to_v1(),
            l.known == self.known,
    {
        MagicSlotV1 { magic: self.magic.to_v1(), known: self.known }
    }

    /// The slot that a storage form stands for.
    pub fn from(l: MagicSlotV1) -> (s: MagicSlot)
        ensures
            s.magic == Magic::spec_from(l.magic),
            s.known == l.known,
    {
        MagicSlot { magic: Magic::from(l.magic), known: l.known }
    }
}

/// Converting an item or a magic to its storage form and back gives it back.
pub proof fn lemma_storage_round_trip(item: Item, magic: Magic, item_v1: ItemV1, magic_v1: MagicV1)
    ensures
        Item::spec_from(item.spec_to_v1()) == item,
        Magic::spec_from(magic.spec_to_v1()) == magic,
        Item::spec_from(item_v1).spec_to_v1() == item_v1,
        Magic::spec_from(magic_v1).spec_to_v1() == magic_v1,
{
}

/// The rank that goes with a level.
pub open spec fn spec_player_rank(level: i32) -> Seq<char> {
    if level <= 7 {
        "Fighter"@
    } else if level <= 15 {
        "Warrior"@
    } else if level <= 23 {
        "Knight"@
    } else if level <= 29 {
        "Valor Guard"@
    } else {
        "Blademaster"@
    }
}

pub fn player_rank(level: i32) -> (rank: &'static str)
    ensures
        rank@ == spec_player_rank(level),
{
    if level <= 7 {
        "Fighter"
    } else if level <= 15 {
        "Warrior"
    } else if level <= 23 {
        "Knight"
    } else if level <= 29 {
        "Valor Guard"
    } else {
        "Blademaster"
    }
}

/// Position of the first slot that holds `item`, or the number of slots
/// where none does.
pub open spec fn item_slot(items: Seq<ItemSlot>, item: Item) -> int
    decreases items.len(),
{
    if items.len() == 0 {
        0
    } else if items[0].item == item {
        0
    } else {
        1 + item_slot(items.drop_first(), item)
    }
}

pub proof fn lemma_item_slot(items: Seq<ItemSlot>, item: Item)
    ensures
        0 <= item_slot(items, item) <= items.len(),
        item_slot(items, item) < items.len() ==> items[item_slot(items, item)].item == item,
        forall|j: int| 0 <= j < item_slot(items, item) ==> (#[trigger] items[j]).item != item,
    decreases items.len(),
{
    if items.len() > 0 && items[0].item != item {
        lemma_item_slot(items.drop_first(), item);
        assert forall|j: int| 0 <= j < item_slot(items, item) implies (#[trigger] items[j]).item
            != item by {
            if j > 0 {
                assert(items[j] == items.drop_first()[j - 1]);
            }
        }
    }
}

/// The items in the order of their slots.
pub open spec fn slot_item(i: int) -> Item {
    if i == 0 {
        Item::Salve
    } else if i == 1 {
        Item::XSalve
    } else if i == 2 {
        Item::Tonic
    } else {
        Item::XTonic
    }
}

/// The magic in the order of its slots.
pub open spec fn slot_magic(i: int) -> Magic {
    if i == 0 {
        Magic::Heal
    } else if i == 1 {
        Magic::FireEdge
    } else if i == 2 {
        Magic::EarthEdge
    } else {
        Magic::WaterEdge
    }
}

/// Slot of an item.
pub open spec fn item_slot_index(item: Item) -> int {
    match item {
        Item::Salve => 0,
        Item::XSalve => 1,
        Item::Tonic => 2,
        Item::XTonic => 3,
    }
}

/// Slot of a magic.
pub open spec fn magic_slot_index(magic: Magic) -> int {
    match magic {
        Magic::Heal => 0,
        Magic::FireEdge => 1,
        Magic::EarthEdge => 2,
        Magic::WaterEdge => 3,
    }
}

impl Progress {
    /// The shape that the game keeps progress in: the level is at least 1,
    /// there is one slot for each item and each magic, in their fixed
    /// order, and one step counter for each encounter group and for towns.
    pub open spec fn wf(&self) -> bool {
        &&& self.level >= 1
        &&& self.items@.len() == NUM_SLOTS
        &&& self.magic@.len() == NUM_SLOTS
        &&& self.steps@.len() == NUM_STEP_COUNTS
        &&& forall|i: int| 0 <= i < NUM_SLOTS ==> (#[trigger] self.items@[i]).item == slot_item(i)
        &&& forall|i: int|
            0 <= i < NUM_SLOTS ==> (#[trigger] self.magic@[i]).magic == slot_magic(i)
    }

    /// Defense that the armor adds, 0 without armor.
    pub open spec fn armor_defense(&self) -> i32 {
        match self.armor {
            Some(a) => a.defense,
            None => 0i32,
        }
    }

    /// Attack that the weapon adds, 0 without a weapon.
    pub open spec fn weapon_attack(&self) -> i32 {
        match self.weapon {
            Some(w) => w.attack,
            None => 0i32,
        }
    }

    /// Experience that the next level takes, `None` where experience leads no further.
    pub open spec fn spec_next_exp(&self) -> Option<i32> {
        exp_for_next_level(self.level as int)
    }

    /// The progress at the start of a new game: the first level, no
    /// equipment, no items, no magic, nothing opened or turned, no step
    /// made and no spirit won over.
    pub open spec fn fresh(&self) -> bool {
        &&& self.wf()
        &&& self.hp == 50 && self.max_hp == 50 && self.mp == 15 && self.max_mp == 15
        &&& self.attack == 6 && self.defense == 3 && self.level == 1 && self.exp == 0
            && self.base_exp == 0
        &&& self.weapon is None && self.armor is None
        &&& forall|i: int| 0 <= i < NUM_SLOTS ==> (#[trigger] self.items@[i]).amount == 0
        &&& forall|i: int| 0 <= i < NUM_SLOTS ==> !(#[trigger] self.magic@[i]).known
        &&& self.collected_chests@.len() == 0 && self.turned_levers@.len() == 0
        &&& forall|i: int| 0 <= i < NUM_STEP_COUNTS ==> #[trigger] self.steps@[i] == 0
        &&& !self.earth_defeated && !self.water_defeated && !self.fire_defeated
    }

    /// Progress at the start of a new game.
    pub fn new() -> (p: Progress)
        ensures
            p.fresh(),
            p.wf(),
            p.hp == 50 && p.max_hp == 50 && p.mp == 15 && p.max_mp == 15,
            p.attack == 6 && p.defense == 3 && p.level == 1 && p.exp == 0 && p.base_exp == 0,
            p.weapon is None && p.armor is None,
            forall|i: int| 0 <= i < NUM_SLOTS ==> (#[trigger] p.items@[i]).amount == 0,
            forall|i: int| 0 <= i < NUM_SLOTS ==> !(#[trigger] p.magic@[i]).known,
            p.collected_chests@.len() == 0 && p.turned_levers@.len() == 0,
            forall|i: int| 0 <= i < NUM_STEP_COUNTS ==> #[trigger] p.steps@[i] == 0,
            !p.earth_defeated && !p.water_defeated && !p.fire_defeated,
    {
        let mut items: Vec<ItemSlot> = Vec::new();
        items.push(ItemSlot { item: Item::Salve, amount: 0 });
        items.push(ItemSlot { item: Item::XSalve, amount: 0 });
        items.push(ItemSlot { item: Item::Tonic, amount: 0 });
        items.push(ItemSlot { item: Item::XTonic, amount: 0 });
        let mut magic: Vec<MagicSlot> = Vec::new();
        magic.push(MagicSlot { magic: Magic::Heal, known: false });
        magic.push(MagicSlot { magic: Magic::FireEdge, known: false });
        magic.push(MagicSlot { magic: Magic::EarthEdge, known: false });
        magic.push(MagicSlot { magic: Magic::WaterEdge, known: false });
        Progress {
            hp: 50,
            max_hp: 50,
            mp: 15,
            max_mp: 15,
            attack: 6,
            defense: 3,
            level: 1,
            exp: 0,
            base_exp: 0,
            weapon: None,
            armor: None,
            items,
            magic,
            collected_chests: Vec::new(),
            turned_levers: Vec::new(),
            steps: vec![0i32; NUM_STEP_COUNTS],
            earth_defeated: false,
            water_defeated: false,
            fire_defeated: false,
        }
    }

    /// Progress after one more level: the experience of the level is added
    /// to the base, and the statistics grow. Values stop at the end of
    /// their range.
    pub open spec fn after_level(self) -> Progress {
        Progress {
            base_exp: match self.spec_next_exp() {
                Some(next) => clamp_i32(self.base_exp + next),
                None => self.base_exp,
            },
            level: clamp_i32(self.level + 1),
            max_hp: clamp_i32(self.max_hp + 30),
            hp: clamp_i32(self.hp + 30),
            max_mp: clamp_i32(self.max_mp + 1),
            mp: clamp_i32(self.mp + 1),
            attack: clamp_i32(self.attack + 2),
            defense: clamp_i32(self.defense + 2),
            ..self
        }
    }

    /// Raises the player by one level.
    pub fn gain_level(&mut self)
        requires
            old(self).level >= 1,
        ensures
            *final(self) == old(self).after_level(),
            old(self).wf() ==> final(self).wf(),
    {
        if let Some(next_exp) = self.next_exp() {
            self.base_exp = add_clamped(self.base_exp, next_exp);
        }
        self.level = add_clamped(self.level, 1);
        self.max_hp = add_clamped(self.max_hp, 30);
        self.hp = add_clamped(self.hp, 30);
        self.max_mp = add_clamped(self.max_mp, 1);
        self.mp = add_clamped(self.mp, 1);
        self.attack = add_clamped(self.attack, 2);
        self.defense = add_clamped(self.defense, 2);
    }

    /// Raises the player by one level where the experience gained since
    /// the last one pays for it, and takes the price off the experience.
    pub fn gain_level_from_exp(&mut self) -> (gained: bool)
        requires
            old(self).level >= 1,
        ensures
            gained == (old(self).spec_next_exp() is Some && old(self).exp >= old(self).spec_next_exp()->0),
            gained ==> *final(self) == (Progress {
                exp: (old(self).exp - old(self).spec_next_exp()->0) as i32,
                ..*old(self)
            }).after_level(),
            !gained ==> *final(self) == *old(self),
            old(self).wf() ==> final(self).wf(),
    {
        match self.next_exp() {
            None => false,
            Some(next_exp) => {
                if self.exp < next_exp {
                    return false;
                }
                self.exp = self.exp - next_exp;
                self.gain_level();
                true
            },
        }
    }

    /// Some slot holds `item`: true of every progress in its normal shape.
    pub open spec fn has_item_slot(&self, item: Item) -> bool {
        item_slot(self.items@, item) < self.items@.len()
    }

    /// A progress in its normal shape holds every item in the slot of
    /// its fixed place, and in none before.
    pub proof fn lemma_item_slots(&self, item: Item)
        requires
            self.wf(),
        ensures
            self.has_item_slot(item),
            item_slot(self.items@, item) == item_slot_index(item),
    {
        lemma_item_slot(self.items@, item);
        let f = item_slot(self.items@, item);
        let at = item_slot_index(item);
        assert(self.items@[at].item == slot_item(at));
        if f < at {
            assert(self.items@[f].item == slot_item(f));
        }
    }

    /// Fills the player's stock of `item` up to `min_amount` and returns
    /// how many were given; 0 where the player has as many already. The
    /// stock is that of the first slot that holds the item.
    pub fn maybe_give_items(&mut self, item: Item, min_amount: i32) -> (given: i32)
        requires
            old(self).has_item_slot(item),
        ensures
            given == if old(self).items@[item_slot(old(self).items@, item)].amount < min_amount {
                clamp_i32(min_amount - old(self).items@[item_slot(old(self).items@, item)].amount)
            } else {
                0i32
            },
            final(self).items@ == old(self).items@.update(
                item_slot(old(self).items@, item),
                ItemSlot {
                    item,
                    amount: if old(self).items@[item_slot(old(self).items@, item)].amount
                        < min_amount {
                        min_amount
                    } else {
                        old(self).items@[item_slot(old(self).items@, item)].amount
                    },
                },
            ),
            *final(self) == (Progress { items: final(self).items, ..*old(self) }),
            old(self).wf() ==> final(self).wf() && item_slot(old(self).items@, item)
                == item_slot_index(item),
    {
        let mut slot: usize = 0;
        while slot < self.items.len() && self.items[slot].item != item
            invariant
                slot <= self.items@.len(),
                *self == *old(self),
                forall|j: int| 0 <= j < slot ==> (#[trigger] self.items@[j]).item != item,
            decreases self.items@.len() - slot,
        {
            slot = slot + 1;
        }
        proof {
            lemma_item_slot(self.items@, item);
            let f = item_slot(self.items@, item);
            if f < slot {
                assert(self.items@[f].item == item);
            }
            if slot < f {
                assert(self.items@[slot as int].item != item);
            }
            if old(self).wf() {
                old(self).lemma_item_slots(item);
            }
        }
        let amount = self.items[slot].amount;
        if amount < min_amount {
            let given = sub_clamped(min_amount, amount);
            self.items[slot].amount = min_amount;
            assert(self.items@ =~= old(self).items@.update(
                slot as int,
                ItemSlot { item, amount: min_amount },
            ));
            given
        } else {
            assert(self.items@ =~= old(self).items@.update(slot as int, ItemSlot { item, amount }));
            0
        }
    }

    /// Puts on the armor where it defends better than what the player
    /// wears, and raises the player's defense by the difference.
    pub fn maybe_upgrade_armor(&mut self, name: &str, defense: i32) -> (upgraded: bool)
        ensures
            upgraded == (defense > old(self).armor_defense()),
            upgraded ==> (final(self).armor matches Some(a) && a.name@ == name@ && a.defense
                == defense),
            upgraded ==> final(self).defense == clamp_i32(
                old(self).defense + (defense - old(self).armor_defense()),
            ),
            upgraded ==> *final(self) == (Progress {
                defense: final(self).defense,
                armor: final(self).armor,
                ..*old(self)
            }),
            !upgraded ==> *final(self) == *old(self),
            old(self).wf() ==> final(self).wf(),
    {
        let current_armor_defense: i32 = match &self.armor {
            Some(a) => a.defense,
            None => 0,
        };
        if defense <= current_armor_defense {
            false
        } else {
            self.defense = crate::numeric::clamp_to_i32(
                self.defense as i64 + (defense as i64 - current_armor_defense as i64),
            );
            self.armor = Some(Armor { name: name.to_owned(), defense });
            true
        }
    }

    /// Takes up the weapon where it hits harder than what the player
    /// carries, and raises the player's attack by the difference.
    pub fn maybe_upgrade_weapon(&mut self, name: &str, attack: i32) -> (upgraded: bool)
        ensures
            upgraded == (attack > old(self).weapon_attack()),
            upgraded ==> (final(self).weapon matches Some(w) && w.name@ == name@ && w.attack
                == attack),
            upgraded ==> final(self).attack == clamp_i32(
                old(self).attack + (attack - old(self).weapon_attack()),
            ),
            upgraded ==> *final(self) == (Progress {
                attack: final(self).attack,
                weapon: final(self).weapon,
                ..*old(self)
            }),
            !upgraded ==> *final(self) == *old(self),
            old(self).wf() ==> final(self).wf(),
    {
        let current_weapon_attack: i32 = match &self.weapon {
            Some(w) => w.attack,
            None => 0,
        };
        if attack <= current_weapon_attack {
            false
        } else {
            self.attack = crate::numeric::clamp_to_i32(
                self.attack as i64 + (attack as i64 - current_weapon_attack as i64),
            );
            self.weapon = Some(Weapon { name: name.to_owned(), attack });
            true
        }
    }

    /// Experience that the next level takes.
    pub fn next_exp(&self) -> (next: Option<i32>)
        requires
            self.level >= 1,
        ensures
            next == self.spec_next_exp(),
    {
        let index: usize = (self.level - 1) as usize;
        if index < NUM_EXP_LEVELS {
            let table = exp_table();
            Some(table[index])
        } else {
            None
        }
    }
}

/// `l` holds exactly what `p` holds: it is the storage form of `p`.
pub open spec fn stores(p: &Progress, l: &ProgressV1) -> bool {
    &&& l.hp == p.hp && l.max_hp == p.max_hp && l.mp == p.mp && l.max_mp == p.max_mp
    &&& l.attack == p.attack && l.defense == p.defense && l.level == p.level
    &&& l.exp == p.exp && l.base_exp == p.base_exp
    &&& l.earth_defeated == p.earth_defeated && l.water_defeated == p.water_defeated
        && l.fire_defeated == p.fire_defeated
    &&& match (p.weapon, l.weapon) {
        (Some(w), Some(lw)) => lw.name@ == w.name@ && lw.attack == w.attack,
        (None, None) => true,
        _ => false,
    }
    &&& match (p.armor, l.armor) {
        (Some(a), Some(la)) => la.name@ == a.name@ && la.defense == a.defense,
        (None, None) => true,
        _ => false,
    }
    &&& l.items@.len() == p.items@.len()
    &&& forall|i: int|
        0 <= i < p.items@.len() ==> (#[trigger] l.items@[i]).item == p.items@[i].item.spec_to_v1()
            && l.items@[i].amount == p.items@[i].amount
    &&& l.magic@.len() == p.magic@.len()
    &&& forall|i: int|
        0 <= i < p.magic@.len() ==> (#[trigger] l.magic@[i]).magic
            == p.magic@[i].magic.spec_to_v1() && l.magic@[i].known == p.magic@[i].known
    &&& l.collected_chests@ == p.collected_chests@
    &&& l.turned_levers@ == p.turned_levers@
    &&& l.steps@ == p.steps@
}

/// A copy of a list of strings.
pub fn clone_strings(v: &Vec<String>) -> (r: Vec<String>)
    ensures
        r@ == v@,
{
    let mut r: Vec<String> = Vec::new();
    let mut i: usize = 0;
    while i < v.len()
        invariant
            i <= v.len(),
            r@ == v@.take(i as int),
        decreases v.len() - i,
    {
        r.push(v[i].clone());
        i = i + 1;
        assert(v@.take(i as int) == v@.take(i - 1).push(v@[i - 1]));
    }
    assert(v@.take(v@.len() as int) == v@);
    r
}

/// A copy of a list of numbers.
pub fn clone_numbers(v: &Vec<i32>) -> (r: Vec<i32>)
    ensures
        r@ == v@,
{
    let mut r: Vec<i32> = Vec::new();
    let mut i: usize = 0;
    while i < v.len()
        invariant
            i <= v.len(),
            r@ == v@.take(i as int),
        decreases v.len() - i,
    {
        r.push(v[i]);
        i = i + 1;
        assert(v@.take(i as int) == v@.take(i - 1).push(v@[i - 1]));
    }
    assert(v@.take(v@.len() as int) == v@);
    r
}

impl Progress {
    /// The progress in its storage form.
    pub fn to_v1(&self) -> (l: ProgressV1)
        ensures
            stores(self, &l),
    {
        let mut items: Vec<ItemSlotV1> = Vec::new();
        let mut i: usize = 0;
        while i < self.items.len()
            invariant
                i <= self.items.len(),
                items@.len() == i,
                forall|j: int|
                    0 <= j < i ==> (#[trigger] items@[j]).item == self.items@[j].item.spec_to_v1()
                        && items@[j].amount == self.items@[j].amount,
            decreases self.items.len() - i,
        {
            items.push(self.items[i].to_v1());
            i = i + 1;
        }
        let mut magic: Vec<MagicSlotV1> = Vec::new();
        let mut k: usize = 0;
        while k < self.magic.len()
            invariant
                k <= self.magic.len(),
                magic@.len() == k,
                forall|j: int|
                    0 <= j < k ==> (#[trigger] magic@[j]).magic
                        == self.magic@[j].magic.spec_to_v1() && magic@[j].known
                        == self.magic@[j].known,
            decreases self.magic.len() - k,
        {
            magic.push(self.magic[k].to_v1());
            k = k + 1;
        }
        ProgressV1 {
            hp: self.hp,
            max_hp: self.max_hp,
            mp: self.mp,
            max_mp: self.max_mp,
            attack: self.attack,
            defense: self.defense,
            level: self.level,
            exp: self.exp,
            base_exp: self.base_exp,
            weapon: match &self.weapon {
                Some(w) => Some(w.to_v1()),
                None => None,
            },
            armor: match &self.armor {
                Some(a) => Some(a.to_v1()),
                None => None,
            },
            items,
            magic,
            collected_chests: clone_strings(&self.collected_chests),
            turned_levers: clone_strings(&self.turned_levers),
            steps: clone_numbers(&self.steps),
            earth_defeated: self.earth_defeated,
            water_defeated: self.water_defeated,
            fire_defeated: self.fire_defeated,
        }
    }

    /// The progress that a storage form stands for.
    pub fn from(l: ProgressV1) -> (p: Progress)
        ensures
            stores(&p, &l),
    {
        let mut items: Vec<ItemSlot> = Vec::new();
        let mut i: usize = 0;
        while i < l.items.len()
            invariant
                i <= l.items.len(),
                items@.len() == i,
                forall|j: int|
                    0 <= j < i ==> (#[trigger] items@[j]).item == Item::spec_from(l.items@[j].item)
                        && items@[j].amount == l.items@[j].amount,
            decreases l.items.len() - i,
        {
            items.push(ItemSlot { item: Item::from(l.items[i].item), amount: l.items[i].amount });
            i = i + 1;
        }
        let mut magic: Vec<MagicSlot> = Vec::new();
        let mut k: usize = 0;
        while k < l.magic.len()
            invariant
                k <= l.magic.len(),
                magic@.len() == k,
                forall|j: int|
                    0 <= j < k ==> (#[trigger] magic@[j]).magic == Magic::spec_from(
                        l.magic@[j].magic,
                    ) && magic@[j].known == l.magic@[j].known,
            decreases l.magic.len() - k,
        {
            magic.push(
                MagicSlot { magic: Magic::from(l.magic[k].magic), known: l.magic[k].known },
            );
            k = k + 1;
        }
        let weapon = match &l.weapon {
            Some(w) => Some(Weapon { name: w.name.clone(), attack: w.attack }),
            None => None,
        };
        let armor = match &l.armor {
            Some(a) => Some(Armor { name: a.name.clone(), defense: a.defense }),
            None => None,
        };
        proof {
            assert forall|j: int| 0 <= j < items@.len() implies (#[trigger] l.items@[j]).item
                == items@[j].item.spec_to_v1() by {
                lemma_storage_round_trip(Item::Salve, Magic::Heal, l.items@[j].item, MagicV1::Heal);
            }
            assert forall|j: int| 0 <= j < magic@.len() implies (#[trigger] l.magic@[j]).magic
                == magic@[j].magic.spec_to_v1() by {
                lemma_storage_round_trip(
                    Item::Salve,
                    Magic::Heal,
                    ItemV1::Salve,
                    l.magic@[j].magic,
                );
            }
        }
        Progress {
            hp: l.hp,
            max_hp: l.max_hp,
            mp: l.mp,
            max_mp: l.max_mp,
            attack: l.attack,
            defense: l.defense,
            level: l.level,
            exp: l.exp,
            base_exp: l.base_exp,
            weapon,
            armor,
            items,
            magic,
            collected_chests: clone_strings(&l.collected_chests),
            turned_levers: clone_strings(&l.turned_levers),
            steps: clone_numbers(&l.steps),
            earth_defeated: l.earth_defeated,
            water_defeated: l.water_defeated,
            fire_defeated: l.fire_defeated,
        }
    }
}

/// What a save file starts with, before the version number.
pub open spec fn save_header() -> Seq<char> {
    "// cqsave "@
}

pub open spec fn is_digit(c: char) -> bool {
    '0' <= c <= '9'
}

/// White space as `char::is_whitespace` has it.
pub open spec fn is_white_space(c: char) -> bool {
    let u = c as u32;
    ||| 0x09 <= u <= 0x0d
    ||| u == 0x20
    ||| u == 0x85
    ||| u == 0xa0
    ||| u == 0x1680
    ||| 0x2000 <= u <= 0x200a
    ||| u == 0x2028
    ||| u == 0x2029
    ||| u == 0x202f
    ||| u == 0x205f
    ||| u == 0x3000
}

/// Number of digits that `s` starts with.
pub open spec fn leading_digits(s: Seq<char>) -> nat
    decreases s.len(),
{
    if s.len() > 0 && is_digit(s[0]) {
        1 + leading_digits(s.drop_first())
    } else {
        0
    }
}

/// Number of white-space characters that `s` starts with.
pub open spec fn leading_space(s: Seq<char>) -> nat
    decreases s.len(),
{
    if s.len() > 0 && is_white_space(s[0]) {
        1 + leading_space(s.drop_first())
    } else {
        0
    }
}

/// Value of a string of decimal digits; 0 for the empty string.
pub open spec fn digits_value(s: Seq<char>) -> nat
    decreases s.len(),
{
    if s.len() == 0 {
        0
    } else {
        digits_value(s.drop_last()) * 10 + (s.last() as u32 - '0' as u32) as nat
    }
}

/// Version and data of a save file, or why it holds none.
///
/// The file starts with the header, then the version in digits, then one
/// character that is no digit; the data is what follows without leading
/// white space.
pub open spec fn parse_save(raw: Seq<char>) -> Result<(u32, Seq<char>), SaveError> {
    if !save_header().is_prefix_of(raw) {
        Err(SaveError::InvalidSaveData)
    } else {
        let rest = raw.skip(save_header().len() as int);
        let k = leading_digits(rest);
        if k == rest.len() {
            Err(SaveError::MissingVersionNumber)
        } else if k == 0 || digits_value(rest.take(k as int)) > u32::MAX {
            Err(SaveError::FailedToParseVersion)
        } else {
            let data = rest.skip(k as int + 1);
            Ok((digits_value(rest.take(k as int)) as u32, data.skip(leading_space(data) as int)))
        }
    }
}

/// A save file for data in the storage form of the current version.
pub open spec fn spec_save_file(data: Seq<char>) -> Seq<char> {
    save_header() + decimal(SAVE_VERSION as int) + "\n"@ + data
}

fn is_digit_char(c: char) -> (b: bool)
    ensures
        b == is_digit(c),
{
    '0' <= c && c <= '9'
}

fn is_white_space_char(c: char) -> (b: bool)
    ensures
        b == is_white_space(c),
{
    let u = c as u32;
    (0x09 <= u && u <= 0x0d) || u == 0x20 || u == 0x85 || u == 0xa0 || u == 0x1680 || (0x2000
        <= u && u <= 0x200a) || u == 0x2028 || u == 0x2029 || u == 0x202f || u == 0x205f || u
        == 0x3000
}

proof fn lemma_leading_digits_step(s: Seq<char>, k: nat)
    requires
        k <= s.len(),
        forall|j: int| 0 <= j < k ==> is_digit(#[trigger] s[j]),
        k < s.len() ==> !is_digit(s[k as int]),
    ensures
        leading_digits(s) == k,
    decreases k,
{
    if k > 0 {
        lemma_leading_digits_step(s.drop_first(), (k - 1) as nat);
    }
}

proof fn lemma_leading_space_step(s: Seq<char>, k: nat)
    requires
        k <= s.len(),
        forall|j: int| 0 <= j < k ==> is_white_space(#[trigger] s[j]),
        k < s.len() ==> !is_white_space(s[k as int]),
    ensures
        leading_space(s) == k,
    decreases k,
{
    if k > 0 {
        lemma_leading_space_step(s.drop_first(), (k - 1) as nat);
    }
}

/// Splits a save file into its version and its data.
pub fn split_save(raw_data: &str) -> (r: Result<(u32, String), SaveError>)
    ensures
        r is Ok == (parse_save(raw_data@) is Ok),
        r matches Ok((version, data)) ==> parse_save(raw_data@) == Ok::<
            (u32, Seq<char>),
            SaveError,
        >((version, data@)),
        r matches Err(e) ==> parse_save(raw_data@) == Err::<(u32, Seq<char>), SaveError>(e),
{
    let raw = chars_of(raw_data);
    let header = chars_of("// cqsave ");
    let n = header.len();
    if raw.len() < n {
        return Err(SaveError::InvalidSaveData);
    }
    let mut i: usize = 0;
    while i < n
        invariant
            i <= n == header@.len() <= raw@.len(),
            header@ == save_header(),
            raw@ == raw_data@,
            forall|j: int| 0 <= j < i ==> raw@[j] == header@[j],
        decreases n - i,
    {
        if raw[i] != header[i] {
            assert(raw@.subrange(0, n as int)[i as int] != header@[i as int]);
            return Err(SaveError::InvalidSaveData);
        }
        i = i + 1;
    }
    assert(raw@.subrange(0, n as int) =~= header@);
    let ghost rest = raw@.skip(n as int);
    let mut k: usize = n;
    let mut version: u64 = 0;
    let mut overflow = false;
    while k < raw.len() && is_digit_char(raw[k])
        invariant
            n <= k <= raw@.len(),
            rest == raw@.skip(n as int),
            raw@ == raw_data@,
            forall|j: int| 0 <= j < k - n ==> is_digit(#[trigger] rest[j]),
            !overflow ==> version == digits_value(rest.take(k - n)) && version <= u32::MAX,
            overflow ==> digits_value(rest.take(k - n)) > u32::MAX,
        decreases raw@.len() - k,
    {
        let d: u64 = (raw[k] as u32 - '0' as u32) as u64;
        proof {
            let t = rest.take(k - n + 1);
            assert(t.drop_last() == rest.take(k - n));
            assert(t.last() == raw@[k as int]);
        }
        if !overflow {
            version = version * 10 + d;
            if version > u32::MAX as u64 {
                overflow = true;
            }
        }
        k = k + 1;
    }
    proof {
        lemma_leading_digits_step(rest, (k - n) as nat);
    }
    if k == raw.len() {
        return Err(SaveError::MissingVersionNumber);
    }
    if k == n || overflow {
        return Err(SaveError::FailedToParseVersion);
    }
    let ghost data = rest.skip(k - n + 1);
    assert(data == raw@.skip(k + 1));
    let mut start: usize = k + 1;
    while start < raw.len() && is_white_space_char(raw[start])
        invariant
            k + 1 <= start <= raw@.len(),
            data == raw@.skip(k + 1),
            forall|j: int| 0 <= j < start - (k + 1) ==> is_white_space(#[trigger] data[j]),
        decreases raw@.len() - start,
    {
        start = start + 1;
    }
    proof {
        lemma_leading_space_step(data, (start - (k + 1)) as nat);
    }
    let mut out: Vec<char> = Vec::new();
    let mut j: usize = start;
    while j < raw.len()
        invariant
            start <= j <= raw@.len(),
            out@ == raw@.subrange(start as int, j as int),
        decreases raw@.len() - j,
    {
        out.push(raw[j]);
        j = j + 1;
    }
    assert(out@ =~= data.skip(leading_space(data) as int));
    Ok((version as u32, string_from_chars(&out)))
}

impl Progress {
    /// Version and data of the save file that was read from storage,
    /// `None` standing for a storage that holds none.
    pub fn load(raw_data: Option<&str>) -> (r: Result<(u32, String), SaveError>)
        ensures
            raw_data is None ==> r == Err::<(u32, String), SaveError>(SaveError::NoSaveFile),
            raw_data matches Some(raw) ==> {
                &&& r is Ok == (parse_save(raw@) is Ok)
                &&& r matches Ok((version, data)) ==> parse_save(raw@) == Ok::<
                    (u32, Seq<char>),
                    SaveError,
                >((version, data@))
                &&& r matches Err(e) ==> parse_save(raw@) == Err::<(u32, Seq<char>), SaveError>(e)
            },
    {
        match raw_data {
            Some(raw) => split_save(raw),
            None => Err(SaveError::NoSaveFile),
        }
    }

    /// The save file that holds `data`, the progress in its storage form
    /// of the current version.
    pub fn save(data: &str) -> (raw: String)
        ensures
            raw@ == spec_save_file(data@),
    {
        save_file(data)
    }
}

/// The contents of a save file for data in the storage form of the current version.
pub fn save_file(data: &str) -> (raw: String)
    ensures
        raw@ == spec_save_file(data@),
{
    let mut out: Vec<char> = Vec::new();
    push_str(&mut out, "// cqsave ");
    push_decimal(&mut out, SAVE_VERSION as i64);
    push_str(&mut out, "\n");
    push_str(&mut out, data);
    string_from_chars(&out)
}

} // verus!
