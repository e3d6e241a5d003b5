//! The story of the game: one long task that puts modes on the stack,
//! waits for the events that end them, and decides what happens next.
use vstd::prelude::*;
use crate::actor::{
    actors_wf, offset_covered, walk_player, walk_step, Actor, ActorType, ChestType,
};
use crate::async_utils::{Poll, Task};
use crate::contexts::{
    actor_position, find_actor, position_of, same_cast, ModeContext, ScriptContext,
};
use crate::direction::Direction;
use crate::enemy::{EncounterGroup, Enemy};
use crate::levels::{Level, LevelError, LevelSet, TILE_SIZE};
use crate::modes::battle::{divide_towards_zero, Battle, BattleEvent};
use crate::modes::debug_menu::{DebugMenu, DebugMenuEvent, DebugMenuEventView};
use crate::modes::main_menu::{MainMenu, MainMenuEvent};
use crate::modes::text_box::{TextBox, TextBoxEvent};
use crate::modes::walk_around::{WalkAround, WalkAroundEvent, WalkPhase};
use crate::modes::{Mode, ModeKind};
use crate::numeric::{add_clamped, clamp_i32, clamp_to_i32, sub_clamped};
use crate::progress::{Item, Magic};
use crate::strings::{push_decimal, push_str, push_truth, string_from_chars};

verus! {

/// The spirits that guard the castles.
#[derive(Clone, Copy, Debug, PartialEq, Eq, Structural)]
pub enum Boss {
    Earth,
    Water,
    Fire,
}

/// Why the story came to an end before its time.
#[derive(Clone, Copy, Debug, PartialEq, Eq, Structural)]
pub enum ScriptError {
    /// A level that the story refers to cannot be had.
    Level(LevelError),
    /// An enemy has no sprite to show.
    MissingSprite,
    /// An actor that the story refers to is not in the level.
    MissingActor,
    /// The player talked to an actor that has nothing to say.
    MissingTalkScript,
    /// A chest holds nothing.
    MissingChestType,
    /// The debug menu asked for a battle that there is none of.
    InvalidBattle,
    /// The debug menu asked for a flag that there is none of.
    UnknownFlag,
}

/// What follows a battle.
#[derive(Clone, Copy, Debug, PartialEq, Eq, Structural)]
pub enum AfterBattle {
    Roam,
    /// The steps to the next encounter are rolled anew.
    Encounter,
    /// A spirit that was won over speaks and leaves.
    Boss { boss: Boss },
}

/// What follows a row of text boxes.
#[derive(Clone, Copy, Debug, PartialEq, Eq, Structural)]
pub enum AfterTexts {
    Roam,
    /// The battle against a spirit begins.
    BossBattle { boss: Boss },
    /// A spirit that was won over leaves.
    BossDefeated { boss: Boss },
    /// The chest of the level counts as opened.
    ChestTaken,
    /// The chest of the level closes again.
    ChestRefused { actor: usize },
    /// The lever of the level is turned.
    Lever,
    /// A battle that was lost is over.
    BattleLost { next: AfterBattle },
}

/// What follows a fade of the screen.
#[derive(Clone, Copy, Debug, PartialEq, Eq, Structural)]
pub enum AfterFade {
    /// The night in bed ends: the screen fades in again.
    BedWake,
    /// The player is rested.
    BedRested,
    /// The player, defeated, is brought home.
    DefeatHome { next: AfterBattle },
    /// The player, brought home, comes to.
    DefeatAwake { next: AfterBattle },
}

/// Where the story stands.
#[derive(Clone, Copy, Debug, PartialEq, Eq, Structural)]
pub enum ScriptState {
    /// Nothing has happened yet.
    Init,
    /// The player moves freely.
    Roaming,
    InDebugMenu,
    InMainMenu,
    /// A row of text boxes is shown.
    Texts { next: AfterTexts },
    InBattle { next: AfterBattle },
    Fading { next: AfterFade },
    /// The player walks out of a level that fades to black.
    WalkingOut { dir: Direction },
    /// The player walks into a level that fades in.
    WalkingIn { dir: Direction },
    /// The story is over.
    Finished,
}

pub struct Script {
    pub state: ScriptState,
    /// The texts of the row of text boxes that is shown.
    pub texts: Vec<String>,
    /// Position of the text that is shown.
    pub next_text: usize,
    /// The level that the player is about to enter.
    pub pending_level: Option<Level>,
    /// The actors of the level that the player is about to enter.
    pub pending_actors: Vec<Actor>,
    pub walk_started: bool,
    pub polls: Ghost<nat>,
}

impl Boss {
    pub open spec fn spec_actor_type(self) -> ActorType {
        match self {
            Boss::Earth => ActorType::Earth,
            Boss::Water => ActorType::Water,
            Boss::Fire => ActorType::Fire,
        }
    }

    #[verifier::when_used_as_spec(spec_actor_type)]
    pub fn actor_type(self) -> (t: ActorType)
        ensures
            t == self.spec_actor_type(),
    {
        match self {
            Boss::Earth => ActorType::Earth,
            Boss::Water => ActorType::Water,
            Boss::Fire => ActorType::Fire,
        }
    }

    /// The spirit as an enemy.
    pub open spec fn spec_enemy(self) -> crate::enemy::EnemyView {
        match self {
            Boss::Earth => crate::enemy::spec_earth_spirit(),
            Boss::Water => crate::enemy::spec_water_spirit(),
            Boss::Fire => crate::enemy::spec_fire_spirit(),
        }
    }

    /// The spirit as an enemy.
    pub fn enemy(self) -> (e: Enemy)
        ensures
            e@ == self.spec_enemy(),
    {
        match self {
            Boss::Earth => Enemy::earth_spirit(),
            Boss::Water => Enemy::water_spirit(),
            Boss::Fire => Enemy::fire_spirit(),
        }
    }

    /// What the spirit says before the battle.
    pub open spec fn spec_challenge(self) -> Seq<char> {
        match self {
            Boss::Earth => "Earth:\nI will return you to the dust\nwhence you came, mortal!"@,
            Boss::Water => "Water:\nThe Water of Life claims all souls!"@,
            Boss::Fire => "Fire:\nYour flame of life will be\nextinguished here!"@,
        }
    }

    /// What the spirit says before the battle.
    pub fn challenge(self) -> (s: &'static str)
        ensures
            s@ == self.spec_challenge(),
    {
        match self {
            Boss::Earth => "Earth:\nI will return you to the dust\nwhence you came, mortal!",
            Boss::Water => "Water:\nThe Water of Life claims all souls!",
            Boss::Fire => "Fire:\nYour flame of life will be\nextinguished here!",
        }
    }

    /// What the spirit says once it is won over.
    pub open spec fn spec_farewell(self) -> Seq<char> {
        match self {
            Boss::Earth => "Earth:\nI was... possessed... please...\nsave... the others..."@,
            Boss::Water => "Water:\nI was... possessed... please...\nsave... the others..."@,
            Boss::Fire => "Fire:\nI was... possessed...\nThank you... Coric..."@,
        }
    }

    /// What the spirit says once it is won over.
    pub fn farewell(self) -> (s: &'static str)
        ensures
            s@ == self.spec_farewell(),
    {
        match self {
            Boss::Earth => "Earth:\nI was... possessed... please...\nsave... the others...",
            Boss::Water => "Water:\nI was... possessed... please...\nsave... the others...",
            Boss::Fire => "Fire:\nI was... possessed...\nThank you... Coric...",
        }
    }

    /// The level in which the spirit waits.
    pub open spec fn spec_level_name(self) -> Seq<char> {
        match self {
            Boss::Earth => "Earth_4"@,
            Boss::Water => "Water_4"@,
            Boss::Fire => "Fire_4"@,
        }
    }

    /// Whether the player has won the spirit over.
    pub open spec fn spec_defeated(self, progress: &crate::progress::Progress) -> bool {
        match self {
            Boss::Earth => progress.earth_defeated,
            Boss::Water => progress.water_defeated,
            Boss::Fire => progress.fire_defeated,
        }
    }

    /// The level in which the spirit waits.
    pub fn level_name(self) -> (s: &'static str)
        ensures
            s@ == self.spec_level_name(),
            s@ == match self {
                Boss::Earth => "Earth_4"@,
                Boss::Water => "Water_4"@,
                Boss::Fire => "Fire_4"@,
            },
    {
        match self {
            Boss::Earth => "Earth_4",
            Boss::Water => "Water_4",
            Boss::Fire => "Fire_4",
        }
    }

    /// Whether the player has won the spirit over.
    pub fn defeated(self, progress: &crate::progress::Progress) -> (b: bool)
        ensures
            b == self.spec_defeated(progress),
            b == match self {
                Boss::Earth => progress.earth_defeated,
                Boss::Water => progress.water_defeated,
                Boss::Fire => progress.fire_defeated,
            },
    {
        match self {
            Boss::Earth => progress.earth_defeated,
            Boss::Water => progress.water_defeated,
            Boss::Fire => progress.fire_defeated,
        }
    }
}

/// The names of the levels that the story has scenes for.
pub open spec fn spec_scripted_levels() -> Seq<Seq<char>> {
    seq!["Start"@, "Level_10"@, "Earth_4"@, "Level_17"@, "Water_4"@, "Fire_4"@]
}

/// The names of the levels that the story has scenes for.
pub fn scripted_levels() -> (names: Vec<&'static str>)
    ensures
        names@.len() == spec_scripted_levels().len(),
        forall|i: int| 0 <= i < names@.len() ==> (#[trigger] names@[i])@ == spec_scripted_levels()[i],
{
    let mut names: Vec<&'static str> = Vec::new();
    names.push("Start");
    names.push("Level_10");
    names.push("Earth_4");
    names.push("Level_17");
    names.push("Water_4");
    names.push("Fire_4");
    names
}

/// The world has every level that the story has scenes for.
pub open spec fn has_scripted_levels(levels: &LevelSet) -> bool {
    forall|i: int|
        0 <= i < spec_scripted_levels().len() ==> levels.by_identifier(
            #[trigger] spec_scripted_levels()[i],
        ) >= 0
}

/// Checks that the world has every level that the story has scenes for.
pub fn validate_level_scripts(levels: &LevelSet) -> (r: Result<(), ScriptError>)
    ensures
        r is Ok == has_scripted_levels(levels),
        r is Err ==> r == Err::<(), ScriptError>(ScriptError::Level(LevelError::UnknownLevel)),
{
    let names = scripted_levels();
    let mut i: usize = 0;
    while i < names.len()
        invariant
            i <= names@.len(),
            names@.len() == spec_scripted_levels().len(),
            forall|j: int|
                0 <= j < names@.len() ==> (#[trigger] names@[j])@ == spec_scripted_levels()[j],
            forall|j: int|
                0 <= j < i ==> levels.by_identifier(#[trigger] spec_scripted_levels()[j]) >= 0,
        decreases names@.len() - i,
    {
        if !levels.contains_identifier(names[i]) {
            assert(levels.by_identifier(spec_scripted_levels()[i as int]) < 0);
            return Err(ScriptError::Level(LevelError::UnknownLevel));
        }
        i = i + 1;
    }
    Ok(())
}

fn text(s: &str) -> (t: String)
    ensures
        t@ == s@,
{
    s.to_owned()
}

/// The text about items of a kind that the player got: one or several.
pub open spec fn got_items(given: i32, one: Seq<char>, many: Seq<char>) -> Seq<char> {
    if given == 1 {
        "Coric got "@ + one + "!"@
    } else {
        "Coric got "@ + crate::strings::decimal(given as int) + " "@ + many + "!"@
    }
}

fn make_got_items(given: i32, one: &str, many: &str) -> (s: String)
    ensures
        s@ == got_items(given, one@, many@),
{
    let mut out: Vec<char> = Vec::new();
    push_str(&mut out, "Coric got ");
    if given == 1 {
        push_str(&mut out, one);
    } else {
        push_decimal(&mut out, given as i64);
        push_str(&mut out, " ");
        push_str(&mut out, many);
    }
    push_str(&mut out, "!");
    string_from_chars(&out)
}

/// A text of three parts.
fn join3(a: &str, b: &str, c: &str) -> (s: String)
    ensures
        s@ == a@ + b@ + c@,
{
    let mut out: Vec<char> = Vec::new();
    push_str(&mut out, a);
    push_str(&mut out, b);
    push_str(&mut out, c);
    string_from_chars(&out)
}

/// The text about the player's new level.
fn make_level_text(level: i32) -> (s: String)
    ensures
        s@ == "Coric is now level "@ + crate::strings::decimal(level as int) + "!"@,
{
    let mut out: Vec<char> = Vec::new();
    push_str(&mut out, "Coric is now level ");
    push_decimal(&mut out, level as i64);
    push_str(&mut out, "!");
    string_from_chars(&out)
}

/// The text about a flag that was changed.
fn make_flag_text(name: &str, value: bool) -> (s: String)
    ensures
        s@ == name@ + " is now "@ + crate::strings::truth(value) + "."@,
{
    let mut out: Vec<char> = Vec::new();
    push_str(&mut out, name);
    push_str(&mut out, " is now ");
    push_truth(&mut out, value);
    push_str(&mut out, ".");
    string_from_chars(&out)
}

/// A row of texts as contracts see it: each text by its characters.
pub open spec fn lines(texts: Seq<String>) -> Seq<Seq<char>> {
    Seq::new(texts.len(), |i: int| texts[i]@)
}

/// What one of the people of the town says, by how far the player has
/// come: the first words until the first spirit is won over, the second
/// until the second is, the third until the third is, and nothing after.
pub open spec fn said(
    p: &crate::progress::Progress,
    first: Seq<char>,
    second: Seq<char>,
    third: Seq<char>,
) -> Seq<Seq<char>> {
    if !p.earth_defeated {
        seq![first]
    } else if !p.water_defeated {
        seq![second]
    } else if !p.fire_defeated {
        seq![third]
    } else {
        Seq::empty()
    }
}

/// Puts a text at the end of a row.
fn say(texts: &mut Vec<String>, t: String)
    ensures
        lines(final(texts)@) == lines(old(texts)@).push(t@),
        lines(final(texts)@) == lines(old(texts)@) + seq![t@],
{
    texts.push(t);
    assert(lines(texts@) =~= lines(old(texts)@).push(t@));
    assert(lines(texts@) =~= lines(old(texts)@) + seq![t@]);
}

/// Puts what one of the people of the town says at the end of a row.
fn say_by_progress(
    texts: &mut Vec<String>,
    progress: &crate::progress::Progress,
    first: &'static str,
    second: &'static str,
    third: &'static str,
)
    ensures
        lines(final(texts)@) == lines(old(texts)@) + said(progress, first@, second@, third@),
{
    match by_progress(progress, first, second, third) {
        Some(words) => {
            say(texts, text(words));
        },
        None => {
            assert(lines(texts@) =~= lines(texts@) + Seq::<Seq<char>>::empty());
        },
    }
}

/// What Jace and Julis, who only talk, have to say.
pub open spec fn townsfolk_texts(p: &crate::progress::Progress, kind: ActorType) -> Seq<Seq<char>> {
    if kind == ActorType::Jace {
        said(
            p,
            "Jace:\nThe spirits reside in three castles.\nThe Earth Castle lies to the east."@,
            "Jace:\nHead to the Water Castle, across\nthe lakes and forests to the west."@,
            "Jace:\nAcross the chasms and cliffs\nto the north lies the Fire Castle."@,
        )
    } else {
        said(
            p,
            "Julis:\nTalk to us when you make progress;\nwe'll have more to tell you."@,
            "Julis:\nDucille tends to the apocathery;\nJace knows the lay of the land."@,
            "Julis:\nWe have records of vampires\nbested by water."@,
        )
    }
}

/// One text where `given` holds, and none where it does not.
pub open spec fn if_given(given: bool, t: Seq<char>) -> Seq<Seq<char>> {
    if given {
        seq![t]
    } else {
        Seq::empty()
    }
}

/// The player is offered a short sword and a leather armor, and takes
/// each where it is better than what the player has: the attack or the
/// defense rises by the difference.
pub open spec fn matero_gives(
    after: &crate::progress::Progress,
    before: &crate::progress::Progress,
) -> bool {
    &&& *after == (crate::progress::Progress {
        attack: after.attack,
        weapon: after.weapon,
        defense: after.defense,
        armor: after.armor,
        ..*before
    })
    &&& if 2 > before.weapon_attack() {
        &&& after.weapon matches Some(w) && w.name@ == "Short Sword"@ && w.attack == 2
        &&& after.attack == clamp_i32(before.attack + (2 - before.weapon_attack()))
    } else {
        after.weapon == before.weapon && after.attack == before.attack
    }
    &&& if 2 > before.armor_defense() {
        &&& after.armor matches Some(a) && a.name@ == "Leather Armor"@ && a.defense == 2
        &&& after.defense == clamp_i32(before.defense + (2 - before.armor_defense()))
    } else {
        after.armor == before.armor && after.defense == before.defense
    }
}

/// What Matero says: a word about the gear that he gives, a text for
/// each piece that the player takes, and advice by how far the player has
/// come.
pub open spec fn matero_texts(before: &crate::progress::Progress) -> Seq<Seq<char>> {
    let weapon = 2 > before.weapon_attack();
    let armor = 2 > before.armor_defense();
    if_given(weapon || armor, "Matero:\nGoing on a quest?\nI have some gear you can use."@)
        + if_given(weapon, "Coric got a Short Sword!"@) + if_given(
        armor,
        "Coric got a Leather Armor!"@,
    ) + said(
        before,
        "Matero:\nIf you use magic on a foe, you can\nfollow up next turn for more damage."@,
        "Matero:\nRumor has it that each castle has\na weapon and an armor to find."@,
        "Matero:\nIf spikes block your path, you can\npull a lever to retract them."@,
    )
}

/// The stock of salves, strong salves and tonics that Ducille fills the
/// player's up to, by how far the player has come.
pub open spec fn ducille_stock(p: &crate::progress::Progress) -> (i32, i32, i32) {
    if !p.earth_defeated {
        (1i32, 0i32, 1i32)
    } else if !p.water_defeated {
        (2i32, 0i32, 2i32)
    } else {
        (1i32, 1i32, 2i32)
    }
}

/// How many of `item` the player is short of a stock of `min`.
pub open spec fn short_of(items: Seq<crate::progress::ItemSlot>, item: Item, min: i32) -> i32 {
    let amount = items[crate::progress::item_slot_index(item)].amount;
    if amount < min {
        clamp_i32(min - amount)
    } else {
        0i32
    }
}

/// The items once the stock of `item` was filled up to `min`.
pub open spec fn stocked(items: Seq<crate::progress::ItemSlot>, item: Item, min: i32) -> Seq<
    crate::progress::ItemSlot,
> {
    let at = crate::progress::item_slot_index(item);
    items.update(
        at,
        crate::progress::ItemSlot {
            item,
            amount: if items[at].amount < min {
                min
            } else {
                items[at].amount
            },
        },
    )
}

/// Ducille teaches the magic that heals where the player does not know
/// it, and fills the player's stock of items.
pub open spec fn ducille_gives(
    after: &crate::progress::Progress,
    before: &crate::progress::Progress,
) -> bool {
    let stock = ducille_stock(before);
    &&& *after == (crate::progress::Progress {
        magic: after.magic,
        items: after.items,
        ..*before
    })
    &&& after.magic@ == if before.magic@[0].known {
        before.magic@
    } else {
        before.magic@.update(0, crate::progress::MagicSlot { magic: Magic::Heal, known: true })
    }
    &&& after.items@ == stocked(
        stocked(stocked(before.items@, Item::Salve, stock.0), Item::XSalve, stock.1),
        Item::Tonic,
        stock.2,
    )
}

/// What Ducille says: the lesson where the player learns the magic
/// that heals, a word about the items and a text for each kind that she
/// gives, and advice by how far the player has come.
pub open spec fn ducille_texts(before: &crate::progress::Progress) -> Seq<Seq<char>> {
    let stock = ducille_stock(before);
    let salves = short_of(before.items@, Item::Salve, stock.0);
    let xsalves = short_of(before.items@, Item::XSalve, stock.1);
    let tonics = short_of(before.items@, Item::Tonic, stock.2);
    (if before.magic@[0].known {
        Seq::<Seq<char>>::empty()
    } else {
        seq![
            "Ducille:\nIt's dangerous out there;\nI can teach you some magic."@,
            "Coric learned "@ + Magic::Heal.spec_name() + "!"@,
            "Ducille:\nDon't hesitate to use it\nif you get low on health."@,
        ]
    }) + if_given(
        salves > 0 || xsalves > 0 || tonics > 0,
        "Ducille:\nYou need items, Coric?\nLet's see what I can find..."@,
    ) + if_given(salves > 0, got_items(salves, "a Salve"@, "Salves"@)) + if_given(
        xsalves > 0,
        got_items(xsalves, "an XSalve"@, "XSalves"@),
    ) + if_given(tonics > 0, got_items(tonics, "a Tonic"@, "Tonics"@)) + said(
        before,
        "Ducille:\nYou can rest in your bed\nto recover and save."@,
        "Ducille:\nIf you fall in battle,\nwe'll bring you back home."@,
        "Ducille:\nThe spirits were possessed, you say?\nI wonder how that came to be..."@,
    )
}

/// What the people of the town say, by how far the player has come:
/// `None` once the third spirit is won over.
fn by_progress(
    progress: &crate::progress::Progress,
    first: &'static str,
    second: &'static str,
    third: &'static str,
) -> (s: Option<&'static str>)
    ensures
        s == if !progress.earth_defeated {
            Some(first)
        } else if !progress.water_defeated {
            Some(second)
        } else if !progress.fire_defeated {
            Some(third)
        } else {
            None
        },
{
    if !progress.earth_defeated {
        Some(first)
    } else if !progress.water_defeated {
        Some(second)
    } else if !progress.fire_defeated {
        Some(third)
    } else {
        None
    }
}

/// Marks a magic as known.
pub fn learn(progress: &mut crate::progress::Progress, magic: Magic)
    requires
        old(progress).wf(),
    ensures
        final(progress).wf(),
        *final(progress) == (crate::progress::Progress {
            magic: final(progress).magic,
            ..*old(progress)
        }),
        final(progress).magic@ == old(progress).magic@.update(
            crate::progress::magic_slot_index(magic),
            crate::progress::MagicSlot { magic, known: true },
        ),
{
    let slot: usize = match magic {
        Magic::Heal => 0,
        Magic::FireEdge => 1,
        Magic::EarthEdge => 2,
        Magic::WaterEdge => 3,
    };
    progress.magic[slot].known = true;
    assert(progress.magic@ =~= old(progress).magic@.update(
        crate::progress::magic_slot_index(magic),
        crate::progress::MagicSlot { magic, known: true },
    ));
}

/// The text about a magic that the player learned.
fn make_learned_text(magic: Magic) -> (s: String)
    ensures
        s@ == "Coric learned "@ + magic.spec_name() + "!"@,
{
    join3("Coric learned ", magic.name(), "!")
}

impl Script {
    /// The story before its first tick: nothing is shown, and nothing is
    /// under way.
    pub open spec fn unstarted(&self) -> bool {
        &&& self.state == ScriptState::Init
        &&& self.texts@.len() == 0
        &&& self.next_text == 0
        &&& self.pending_level is None
        &&& self.pending_actors@.len() == 0
        &&& !self.walk_started
        &&& self.polls@ == 0
    }

    /// The story before its first tick.
    pub fn new() -> (s: Script)
        ensures
            s.state == ScriptState::Init,
            s.polls@ == 0,
            s.unstarted(),
    {
        Script {
            state: ScriptState::Init,
            texts: Vec::new(),
            next_text: 0,
            pending_level: None,
            pending_actors: Vec::new(),
            walk_started: false,
            polls: Ghost(0),
        }
    }

    /// Free movement lies at the bottom of the stack, between updates.
    pub open spec fn base_parked(sctx: &ScriptContext) -> bool {
        &&& sctx.modes@.len() >= 1
        &&& sctx.modes@[0] matches Mode::WalkAround(w)
        &&& w.phase == WalkPhase::Start
    }

    /// The player stands on a tile.
    pub open spec fn at_rest(sctx: &ScriptContext) -> bool {
        sctx.mctx.actors@[0].offset_x == 0 && sctx.mctx.actors@[0].offset_y == 0
    }

    /// Free movement is parked below a mode of the given kind.
    pub open spec fn under(sctx: &ScriptContext, kind: ModeKind) -> bool {
        &&& sctx.modes@.len() == 2
        &&& Script::base_parked(sctx)
        &&& sctx.modes@[1].kind() == kind
        &&& Script::at_rest(sctx)
    }

    /// What holds between the ticks of the story: the state is sound, and
    /// the stack holds the modes that the story waits for.
    pub open spec fn holds(&self, sctx: &ScriptContext) -> bool {
        &&& sctx.wf()
        &&& match self.state {
            ScriptState::Init => sctx.modes@.len() == 0,
            ScriptState::Roaming => {
                &&& sctx.modes@.len() == 1
                &&& sctx.modes@[0] matches Mode::WalkAround(w)
                &&& w.inv(&sctx.mctx)
            },
            ScriptState::InDebugMenu => Script::under(sctx, ModeKind::DebugMenu),
            ScriptState::InMainMenu => Script::under(sctx, ModeKind::MainMenu),
            ScriptState::Texts { .. } => Script::under(sctx, ModeKind::TextBox) && self.next_text
                < self.texts@.len(),
            ScriptState::InBattle { .. } => Script::under(sctx, ModeKind::Battle),
            ScriptState::Fading { .. } => {
                &&& sctx.modes@.len() == 1
                &&& Script::base_parked(sctx)
                &&& Script::at_rest(sctx)
            },
            ScriptState::WalkingOut { .. } => {
                &&& sctx.modes@.len() == 1
                &&& Script::base_parked(sctx)
                &&& self.pending_level matches Some(level)
                &&& level.wf()
                &&& actors_wf(self.pending_actors@)
            },
            ScriptState::WalkingIn { .. } => {
                &&& sctx.modes@.len() == 1
                &&& Script::base_parked(sctx)
            },
            ScriptState::Finished => sctx.modes@.len() <= 1 && (sctx.modes@.len() == 1
                ==> sctx.modes@[0] is WalkAround),
        }
    }

    /// Where the story stands once a battle that the player won or left
    /// has been dealt with: a spirit that was won over speaks, and
    /// after every other battle the player moves freely.
    pub open spec fn state_after_battle(won: bool, next: AfterBattle) -> ScriptState {
        match next {
            AfterBattle::Boss { boss } => if won {
                ScriptState::Texts { next: AfterTexts::BossDefeated { boss } }
            } else {
                ScriptState::Roaming
            },
            _ => ScriptState::Roaming,
        }
    }

    /// Where the story stands once a row of texts has been read and what
    /// follows it has begun: in the battle against the spirit that
    /// challenged the player, and else in free movement.
    pub open spec fn state_after_texts(next: AfterTexts) -> ScriptState {
        match next {
            AfterTexts::BossBattle { boss } => ScriptState::InBattle {
                next: AfterBattle::Boss { boss },
            },
            _ => ScriptState::Roaming,
        }
    }

    /// Where the story stands once an event of the debug menu has been
    /// followed without a fault: in the battle that was asked for, in
    /// free movement where nothing is to be said, and else before the
    /// text that says what was done.
    pub open spec fn state_after_debug(event: DebugMenuEventView) -> ScriptState {
        match event {
            DebugMenuEventView::Cancel | DebugMenuEventView::GetItems | DebugMenuEventView::Warp {
                ..
            } => ScriptState::Roaming,
            DebugMenuEventView::Battle(_) => ScriptState::InBattle { next: AfterBattle::Roam },
            DebugMenuEventView::Quit => ScriptState::Finished,
            _ => ScriptState::Texts { next: AfterTexts::Roam },
        }
    }

    /// Where the story stands once the player has stepped over the edge
    /// of the level without a fault: on the way out where a level lies
    /// that way, and else in free movement.
    pub open spec fn state_after_edge(sctx: &ScriptContext, dir: Direction) -> ScriptState {
        match sctx.levels.neighbour_index(
            sctx.mctx.level.neighbours@,
            sctx.player_world_x(),
            sctx.player_world_y(),
            dir,
        ) {
            Ok(Some(_)) => ScriptState::WalkingOut { dir },
            _ => ScriptState::Roaming,
        }
    }

    /// How a tick of the story ends: with the fault where there is one,
    /// and pending where there is none.
    pub open spec fn ends(r: Poll<Result<(), ScriptError>>, fault: Option<ScriptError>) -> bool {
        match fault {
            Some(e) => r == Poll::Ready(Err::<(), ScriptError>(e)),
            None => r is Pending,
        }
    }

    /// The fault of a result, if it is one.
    pub open spec fn fault_of(w: Result<(), ScriptError>) -> Option<ScriptError> {
        match w {
            Ok(_) => None,
            Err(e) => Some(e),
        }
    }

    /// Why no battle can begin against an enemy whose picture is called
    /// `path`: no usable sprite sheet goes by that name.
    pub open spec fn sprite_fault(sctx: &ScriptContext, path: Seq<char>) -> Option<ScriptError> {
        if sctx.mctx.res.sprite_sheet_usable(path) {
            None
        } else {
            Some(ScriptError::MissingSprite)
        }
    }

    /// The picture of a spirit as an enemy.
    pub open spec fn boss_path(boss: Boss) -> Seq<char> {
        match boss {
            Boss::Earth => crate::enemy::spec_earth_spirit().sprite_path,
            Boss::Water => crate::enemy::spec_water_spirit().sprite_path,
            Boss::Fire => crate::enemy::spec_fire_spirit().sprite_path,
        }
    }

    /// The picture of the enemy of a group that the next random number
    /// picks.
    pub open spec fn random_path(sctx: &ScriptContext, group: EncounterGroup) -> Seq<char> {
        crate::enemy::spec_enemy(
            group,
            crate::random::sample(
                sctx.mctx.rng@,
                crate::enemy::GROUP_SIZE,
                crate::random::MAX_DRAWS as nat,
            ).0 as int,
        ).sprite_path
    }

    /// Why the story cannot go on after a row of texts, if it cannot: the
    /// spirit that challenged the player is not among the actors, or it
    /// has no picture for the battle.
    pub open spec fn texts_fault(sctx: &ScriptContext, next: AfterTexts) -> Option<ScriptError> {
        match next {
            AfterTexts::BossBattle { boss } => if actor_position(
                sctx.mctx.actors@,
                boss.spec_actor_type(),
            ) >= sctx.mctx.actors@.len() {
                Some(ScriptError::MissingActor)
            } else {
                Script::sprite_fault(sctx, Script::boss_path(boss))
            },
            _ => None,
        }
    }

    /// The spirit that an actor of a kind is, if it is one.
    pub open spec fn boss_of(kind: ActorType) -> Option<Boss> {
        if kind == ActorType::Earth {
            Some(Boss::Earth)
        } else if kind == ActorType::Water {
            Some(Boss::Water)
        } else if kind == ActorType::Fire {
            Some(Boss::Fire)
        } else {
            None
        }
    }

    /// Why the player cannot talk to the actor at position `actor`, if
    /// not: it is the player or no actor at all, a chest that holds
    /// nothing, or an actor that has nothing to say where it stands. The
    /// people of the town and the bed have their scenes in the town, a
    /// spirit in its own level, and chests and levers everywhere.
    pub open spec fn talk_fault(sctx: &ScriptContext, actor: int) -> Option<ScriptError> {
        let actors = sctx.mctx.actors@;
        let name = sctx.mctx.level.identifier@;
        if actor <= 0 || actor >= actors.len() {
            Some(ScriptError::MissingActor)
        } else {
            let kind = actors[actor].identifier;
            if name == "Start"@ && (kind == ActorType::Bed || kind == ActorType::Ducille || kind
                == ActorType::Matero || kind == ActorType::Jace || kind == ActorType::Julis) {
                None
            } else if Script::boss_of(kind) matches Some(boss) && name == boss.spec_level_name() {
                None
            } else if kind == ActorType::Chest {
                if crate::contexts::name_listed(sctx.mctx.progress.collected_chests@, name) {
                    None
                } else if actors[actor].chest_type is None {
                    Some(ScriptError::MissingChestType)
                } else {
                    None
                }
            } else if kind == ActorType::Lever {
                None
            } else {
                Some(ScriptError::MissingTalkScript)
            }
        }
    }

    /// Why the player cannot leave the level in direction `dir`, if not:
    /// a neighbour that way is no level of the world, or the level that
    /// lies there cannot be made. That no level lies that way is no fault.
    pub open spec fn leave_fault(sctx: &ScriptContext, dir: Direction) -> Option<ScriptError> {
        match sctx.levels.neighbour_index(
            sctx.mctx.level.neighbours@,
            sctx.player_world_x(),
            sctx.player_world_y(),
            dir,
        ) {
            Err(e) => Some(ScriptError::Level(e)),
            Ok(None) => None,
            Ok(Some(index)) => match sctx.levels.build_fault(&sctx.mctx.res, index) {
                Some(e) => Some(ScriptError::Level(e)),
                None => None,
            },
        }
    }

    /// Why the story cannot go on after an event of free movement, if it
    /// cannot.
    pub open spec fn walk_fault(sctx: &ScriptContext, event: WalkAroundEvent) -> Option<
        ScriptError,
    > {
        match event {
            WalkAroundEvent::DebugMenu | WalkAroundEvent::MainMenu => None,
            WalkAroundEvent::Encounter => match sctx.mctx.level.encounters {
                Some(group) => Script::sprite_fault(sctx, Script::random_path(sctx, group)),
                None => None,
            },
            WalkAroundEvent::TalkActor(actor) => Script::talk_fault(sctx, actor as int),
            WalkAroundEvent::TouchLevelEdge(dir) => Script::leave_fault(sctx, dir),
        }
    }

    /// The group of enemies that an entry of the debug menu's list of
    /// battles stands for.
    pub open spec fn debug_group(battle: i32) -> Option<EncounterGroup> {
        if battle == 0 {
            Some(EncounterGroup::Wilderness1)
        } else if battle == 1 {
            Some(EncounterGroup::Wilderness2)
        } else if battle == 2 {
            Some(EncounterGroup::Wilderness3)
        } else if battle == 3 {
            Some(EncounterGroup::EarthCastle)
        } else if battle == 4 {
            Some(EncounterGroup::WaterCastle)
        } else if battle == 5 {
            Some(EncounterGroup::FireCastle)
        } else {
            None
        }
    }

    /// The spirit that an entry of the debug menu's list of battles
    /// stands for.
    pub open spec fn debug_boss(battle: i32) -> Option<Boss> {
        if battle == 6 {
            Some(Boss::Earth)
        } else if battle == 7 {
            Some(Boss::Water)
        } else if battle == 8 {
            Some(Boss::Fire)
        } else {
            None
        }
    }

    /// How the story goes on after a warp to the tile (`x`, `y`) of the
    /// level called `level_id`: with the fault of the warp where it has
    /// one, and pending where it has none.
    pub open spec fn warp_ends(
        before: &ScriptContext,
        level_id: Seq<char>,
        x: i32,
        y: i32,
        r: Poll<Result<(), ScriptError>>,
    ) -> bool {
        exists|there: ScriptContext, w: Result<(), ScriptError>| #[trigger]
            Script::warped(&there, before, level_id, x, y, w) && Script::ends(r, Script::fault_of(w))
    }

    /// The magic of the player once all of it is known.
    pub open spec fn all_magic(magic: Seq<crate::progress::MagicSlot>) -> Seq<crate::progress::MagicSlot> {
        magic.update(
            crate::progress::magic_slot_index(Magic::Heal),
            crate::progress::MagicSlot { magic: Magic::Heal, known: true },
        ).update(
            crate::progress::magic_slot_index(Magic::FireEdge),
            crate::progress::MagicSlot { magic: Magic::FireEdge, known: true },
        ).update(
            crate::progress::magic_slot_index(Magic::EarthEdge),
            crate::progress::MagicSlot { magic: Magic::EarthEdge, known: true },
        ).update(
            crate::progress::magic_slot_index(Magic::WaterEdge),
            crate::progress::MagicSlot { magic: Magic::WaterEdge, known: true },
        )
    }

    /// What an event of the debug menu makes of the player's progress,
    /// where it is one that changes the progress and nothing else.
    pub open spec fn debug_given(
        after: &crate::progress::Progress,
        before: &crate::progress::Progress,
        event: DebugMenuEventView,
    ) -> bool {
        match event {
            DebugMenuEventView::GainLevel => *after == (crate::progress::Progress {
                exp: 0,
                ..*before
            }).after_level(),
            DebugMenuEventView::SetWeapon(weapon) => {
                &&& *after == (crate::progress::Progress {
                    attack: after.attack,
                    weapon: after.weapon,
                    ..*before
                })
                &&& after.attack == clamp_i32(
                    before.attack + (match weapon {
                        Some(w) => w.1,
                        None => 0i32,
                    } - before.weapon_attack()),
                )
                &&& match weapon {
                    Some(w) => after.weapon matches Some(a) && a.name@ == w.0 && a.attack == w.1,
                    None => after.weapon is None,
                }
            },
            DebugMenuEventView::SetArmor(armor) => {
                &&& *after == (crate::progress::Progress {
                    defense: after.defense,
                    armor: after.armor,
                    ..*before
                })
                &&& after.defense == clamp_i32(
                    before.defense + (match armor {
                        Some(a) => a.1,
                        None => 0i32,
                    } - before.armor_defense()),
                )
                &&& match armor {
                    Some(w) => after.armor matches Some(a) && a.name@ == w.0 && a.defense == w.1,
                    None => after.armor is None,
                }
            },
            DebugMenuEventView::GetItems => {
                &&& *after == (crate::progress::Progress { items: after.items, ..*before })
                &&& after.items@ == stocked(
                    stocked(
                        stocked(stocked(before.items@, Item::Salve, 2), Item::XSalve, 2),
                        Item::Tonic,
                        2,
                    ),
                    Item::XTonic,
                    2,
                )
            },
            DebugMenuEventView::LearnAllMagic => {
                &&& *after == (crate::progress::Progress { magic: after.magic, ..*before })
                &&& after.magic@ == Script::all_magic(before.magic@)
            },
            DebugMenuEventView::ResetStepCounts => {
                &&& *after == (crate::progress::Progress { steps: after.steps, ..*before })
                &&& after.steps@.len() == before.steps@.len()
                &&& forall|i: int| 0 <= i < after.steps@.len() ==> #[trigger] after.steps@[i] == 0
            },
            DebugMenuEventView::ChangeFlag(flag) => *after == (crate::progress::Progress {
                earth_defeated: before.earth_defeated != (flag == 0),
                water_defeated: before.water_defeated != (flag == 1),
                fire_defeated: before.fire_defeated != (flag == 2),
                ..*before
            }),
            _ => *after == *before,
        }
    }

    /// What is said about an event of the debug menu that was followed.
    pub open spec fn debug_texts(
        after: &crate::progress::Progress,
        event: DebugMenuEventView,
    ) -> Seq<Seq<char>> {
        match event {
            DebugMenuEventView::GainLevel => seq![
                "Coric is now level "@ + crate::strings::decimal(after.level as int) + "!"@,
            ],
            DebugMenuEventView::SetWeapon(weapon) => seq![
                "Coric's weapon is now "@ + match weapon {
                    Some(w) => w.0,
                    None => "(none)"@,
                } + "."@,
            ],
            DebugMenuEventView::SetArmor(armor) => seq![
                "Coric's armor is now "@ + match armor {
                    Some(a) => a.0,
                    None => "(none)"@,
                } + "."@,
            ],
            DebugMenuEventView::LearnAllMagic => seq![
                "Coric learned "@ + Magic::Heal.spec_name() + "!"@,
                "Coric learned "@ + Magic::FireEdge.spec_name() + "!"@,
                "Coric learned "@ + Magic::EarthEdge.spec_name() + "!"@,
                "Coric learned "@ + Magic::WaterEdge.spec_name() + "!"@,
            ],
            DebugMenuEventView::ResetStepCounts => seq!["Step counts reset."@],
            DebugMenuEventView::ChangeFlag(flag) => seq![
                if flag == 0 {
                    "earth_defeated"@ + " is now "@ + crate::strings::truth(after.earth_defeated)
                        + "."@
                } else if flag == 1 {
                    "water_defeated"@ + " is now "@ + crate::strings::truth(after.water_defeated)
                        + "."@
                } else {
                    "fire_defeated"@ + " is now "@ + crate::strings::truth(after.fire_defeated)
                        + "."@
                },
            ],
            _ => Seq::empty(),
        }
    }

    /// An event of the debug menu that changes the player's progress was
    /// followed: the progress is changed, and what is to be said about it
    /// is put up; where nothing is to be said, the player moves freely
    /// at once.
    pub open spec fn debug_noted(
        &self,
        story: &Script,
        sctx: &ScriptContext,
        before: &ScriptContext,
        event: DebugMenuEventView,
        r: Poll<Result<(), ScriptError>>,
    ) -> bool {
        exists|noted: ScriptContext, texts: Vec<String>|
            {
                &&& #[trigger] self.row_shown(story, sctx, &noted, texts, AfterTexts::Roam, r)
                &&& noted == (ScriptContext {
                    mctx: ModeContext { progress: noted.mctx.progress, ..before.mctx },
                    ..*before
                })
                &&& Script::debug_given(&noted.mctx.progress, &before.mctx.progress, event)
                &&& lines(texts@) == Script::debug_texts(&noted.mctx.progress, event)
            }
    }

    /// What follows an event of the debug menu, once the menu is off the
    /// stack. The story ends without an error on the request to quit and
    /// on nothing else, and then nothing changes any more. It ends with
    /// an error where a battle or a flag is asked for that there is none
    /// of, where the enemy of a battle has no picture, and where a warp
    /// fails. On every other event it goes on.
    pub open spec fn debug_followed(
        &self,
        story: &Script,
        sctx: &ScriptContext,
        before: &ScriptContext,
        event: DebugMenuEventView,
        r: Poll<Result<(), ScriptError>>,
    ) -> bool {
        &&& r is Pending ==> self.state == Script::state_after_debug(event)
        &&& match event {
            DebugMenuEventView::Quit => r == Poll::Ready(Ok::<(), ScriptError>(())) && *sctx
                == *before,
            DebugMenuEventView::Battle(battle) => match Script::debug_group(battle) {
                Some(group) => Script::ends(
                    r,
                    Script::sprite_fault(before, Script::random_path(before, group)),
                ) && self.group_met(story, sctx, before, group, AfterBattle::Roam, r),
                None => match Script::debug_boss(battle) {
                    Some(boss) => Script::ends(
                        r,
                        Script::sprite_fault(before, Script::boss_path(boss)),
                    ) && (r is Pending ==> self.battle_begun(
                        story,
                        sctx,
                        before,
                        boss.spec_enemy(),
                        true,
                        AfterBattle::Roam,
                    )),
                    None => r == Poll::Ready(
                        Err::<(), ScriptError>(ScriptError::InvalidBattle),
                    ),
                },
            },
            DebugMenuEventView::ChangeFlag(flag) => if 0 <= flag <= 2 {
                r is Pending && self.debug_noted(story, sctx, before, event, r)
            } else {
                r == Poll::Ready(Err::<(), ScriptError>(ScriptError::UnknownFlag)) && *sctx
                    == *before
            },
            DebugMenuEventView::Warp { level_id, x, y } => Script::warp_ends(
                before,
                level_id,
                x,
                y,
                r,
            ) && exists|there: ScriptContext, w: Result<(), ScriptError>| #[trigger]
                Script::warped(&there, before, level_id, x, y, w) && match w {
                    Ok(_) => *self == (Script { state: ScriptState::Roaming, ..*story })
                        && Script::top_waits(sctx, &there),
                    Err(_) => *sctx == there,
                },
            DebugMenuEventView::Cancel => r is Pending && *self == (Script {
                state: ScriptState::Roaming,
                ..*story
            }) && Script::top_waits(sctx, before),
            DebugMenuEventView::GetItems => r is Pending && *self == (Script {
                state: ScriptState::Roaming,
                ..*story
            }) && exists|noted: ScriptContext| #[trigger]
                Script::top_waits(sctx, &noted) && noted == (ScriptContext {
                    mctx: ModeContext { progress: noted.mctx.progress, ..before.mctx },
                    ..*before
                }) && Script::debug_given(&noted.mctx.progress, &before.mctx.progress, event),
            _ => r is Pending && self.debug_noted(story, sctx, before, event, r),
        }
    }

    /// The player is rested: life and magic are as high as they get.
    pub open spec fn rested(after: &ScriptContext, before: &ScriptContext) -> bool {
        *after == (ScriptContext {
            mctx: ModeContext {
                progress: crate::progress::Progress {
                    hp: before.mctx.progress.max_hp,
                    mp: before.mctx.progress.max_mp,
                    ..before.mctx.progress
                },
                ..before.mctx
            },
            ..*before
        })
    }

    /// One tick of a fade that `next` follows, from the context in which
    /// the fade was set up or left: the fade goes on by a frame and the
    /// story waits for it, or, where no frame is left, what follows the
    /// fade happens at once.
    pub open spec fn fade_run(
        &self,
        story: &Script,
        sctx: &ScriptContext,
        before: &ScriptContext,
        next: AfterFade,
        r: Poll<Result<(), ScriptError>>,
    ) -> bool
        decreases 2 * fade_rank(next) + 1,
    {
        if before.mctx.fade.frame() < before.mctx.fade.frames() {
            &&& r is Pending
            &&& *self == (Script { state: ScriptState::Fading { next }, ..*story })
            &&& *sctx == (ScriptContext {
                mctx: ModeContext { fade: sctx.mctx.fade, ..before.mctx },
                ..*before
            })
            &&& sctx.mctx.fade.frame() == before.mctx.fade.frame() + 1
            &&& sctx.mctx.fade.frames() == before.mctx.fade.frames()
            &&& sctx.mctx.fade.start() == before.mctx.fade.start()
            &&& sctx.mctx.fade.target() == before.mctx.fade.target()
            &&& sctx.mctx.fade.color().len() == 4
            &&& forall|i: int|
                0 <= i < 4 ==> #[trigger] sctx.mctx.fade.color()[i] == crate::fade::blend(
                    before.mctx.fade.start()[i],
                    before.mctx.fade.target()[i],
                    before.mctx.fade.frame() + 1,
                    before.mctx.fade.frames(),
                )
        } else {
            self.fade_over(story, sctx, before, next, r)
        }
    }

    /// What follows a fade of the screen. After the night in bed the
    /// screen fades in again, and then the player is rested and told so.
    /// The player who fell in battle is brought home by a warp, whose
    /// fault ends the story; there the player is rested, the screen
    /// fades in, and then the player says a word before the battle that
    /// was lost is dealt with.
    pub open spec fn fade_over(
        &self,
        story: &Script,
        sctx: &ScriptContext,
        before: &ScriptContext,
        next: AfterFade,
        r: Poll<Result<(), ScriptError>>,
    ) -> bool
        decreases 2 * fade_rank(next),
    {
        match next {
            AfterFade::BedWake => exists|lit: ScriptContext| #[trigger]
                lit.fading_in(before, 60) && self.fade_run(
                    story,
                    sctx,
                    &lit,
                    AfterFade::BedRested,
                    r,
                ),
            AfterFade::BedRested => exists|rested: ScriptContext, texts: Vec<String>| #[trigger]
                self.row_shown(story, sctx, &rested, texts, AfterTexts::Roam, r) && Script::rested(
                    &rested,
                    before,
                ) && lines(texts@) == seq!["HP and MP recovered!"@],
            AfterFade::DefeatHome { next } => exists|there: ScriptContext, w: Result<(), ScriptError>|
                #[trigger] Script::warped(&there, before, "Start"@, 6, 3, w) && match w {
                    Err(e) => r == Poll::Ready(Err::<(), ScriptError>(e)) && *sctx == there && *self
                        == (Script { state: ScriptState::Finished, ..*story }),
                    Ok(_) => exists|rested: ScriptContext, lit: ScriptContext| #[trigger]
                        lit.fading_in(&rested, 90) && Script::rested(&rested, &there)
                            && self.fade_run(
                            story,
                            sctx,
                            &lit,
                            AfterFade::DefeatAwake { next },
                            r,
                        ),
                },
            AfterFade::DefeatAwake { next } => exists|texts: Vec<String>| #[trigger]
                self.row_shown(story, sctx, before, texts, AfterTexts::BattleLost { next }, r)
                    && lines(texts@) == seq!["Coric:\nOuch!"@],
        }
    }

    /// The enemy of a group that the next random number picks.
    pub open spec fn random_enemy(sctx: &ScriptContext, group: EncounterGroup) -> crate::enemy::EnemyView {
        crate::enemy::spec_enemy(
            group,
            crate::random::sample(
                sctx.mctx.rng@,
                crate::enemy::GROUP_SIZE,
                crate::random::MAX_DRAWS as nat,
            ).0 as int,
        )
    }

    /// A number was drawn for one of the enemies of a group: the
    /// generator has moved on, and nothing else changed.
    pub open spec fn enemy_drawn(drawn: &ScriptContext, before: &ScriptContext) -> bool {
        &&& *drawn == (ScriptContext {
            mctx: ModeContext { rng: drawn.mctx.rng, ..before.mctx },
            ..*before
        })
        &&& drawn.mctx.rng@ == crate::random::sample(
            before.mctx.rng@,
            crate::enemy::GROUP_SIZE,
            crate::random::MAX_DRAWS as nat,
        ).1
    }

    /// A battle against `enemy` has begun over the level: the battle is
    /// on the stack as it is made, the player is hidden, and the battle
    /// made its first update.
    pub open spec fn battle_begun(
        &self,
        before: &Script,
        sctx: &ScriptContext,
        sctx_before: &ScriptContext,
        enemy: crate::enemy::EnemyView,
        boss_fight: bool,
        next: AfterBattle,
    ) -> bool {
        let actors = sctx_before.mctx.actors@;
        &&& *self == (Script { state: ScriptState::InBattle { next }, ..*before })
        &&& exists|pushed: ScriptContext|
            {
                &&& #[trigger] Script::top_waits(sctx, &pushed)
                &&& pushed == (ScriptContext {
                    modes: pushed.modes,
                    mctx: ModeContext { actors: pushed.mctx.actors, ..sctx_before.mctx },
                    ..*sctx_before
                })
                &&& actors.len() > 0
                &&& pushed.mctx.actors@ == actors.update(0, Actor { visible: false, ..actors[0] })
                &&& pushed.modes@.len() == sctx_before.modes@.len() + 1
                &&& pushed.modes@.drop_last() == sctx_before.modes@
                &&& pushed.modes@.last() matches Mode::Battle(b) && b.enemy@ == enemy && b.boss_fight
                    == boss_fight && b.phase == crate::modes::battle::BattlePhase::Start
                    && b.follow_up is None && b.enemy_visible && !b.menu_visible && b.status_visible
                    && !b.change_visible && b.fresh(
                    &sctx_before.mctx.res,
                    sctx_before.mctx.progress.max_hp,
                    sctx_before.mctx.progress.max_mp,
                )
            }
    }

    /// An enemy of the group was drawn, and where it has a picture the
    /// battle against it has begun.
    pub open spec fn group_met(
        &self,
        before: &Script,
        sctx: &ScriptContext,
        sctx_before: &ScriptContext,
        group: EncounterGroup,
        next: AfterBattle,
        r: Poll<Result<(), ScriptError>>,
    ) -> bool {
        exists|drawn: ScriptContext| #[trigger]
            Script::enemy_drawn(&drawn, sctx_before) && if r is Pending {
                self.battle_begun(
                    before,
                    sctx,
                    &drawn,
                    Script::random_enemy(sctx_before, group),
                    false,
                    next,
                )
            } else {
                *sctx == drawn
            }
    }

    /// What the story makes of the context once a battle that the player
    /// won or left is over, before it goes on. After an encounter the
    /// steps to the next one are drawn anew. A spirit that was won over
    /// shows itself again. Else nothing changes.
    pub open spec fn settled(
        after: &ScriptContext,
        before: &ScriptContext,
        won: bool,
        next: AfterBattle,
    ) -> bool {
        let actors = before.mctx.actors@;
        match next {
            AfterBattle::Roam => *after == *before,
            AfterBattle::Encounter => {
                let drawn = crate::random::sample(
                    before.mctx.rng@,
                    31,
                    crate::random::MAX_DRAWS as nat,
                );
                &&& *after == (ScriptContext {
                    mctx: ModeContext {
                        rng: after.mctx.rng,
                        encounter_steps: (20 + drawn.0) as i32,
                        ..before.mctx
                    },
                    ..*before
                })
                &&& after.mctx.rng@ == drawn.1
            },
            AfterBattle::Boss { boss } => {
                let at = actor_position(actors, boss.spec_actor_type());
                if won && 0 < at < actors.len() {
                    &&& *after == (ScriptContext {
                        mctx: ModeContext { actors: after.mctx.actors, ..before.mctx },
                        ..*before
                    })
                    &&& after.mctx.actors@ == actors.update(
                        at,
                        Actor { visible: true, ..actors[at] },
                    )
                } else {
                    *after == *before
                }
            },
        }
    }

    /// The battle is dealt with and the story goes on: with the
    /// farewell of a spirit that was won over, put up in a text box, and
    /// else with free movement, which made one update.
    pub open spec fn battle_settled(
        &self,
        before: &Script,
        sctx: &ScriptContext,
        sctx_before: &ScriptContext,
        won: bool,
        next: AfterBattle,
    ) -> bool {
        exists|noted: ScriptContext|
            {
                &&& #[trigger] Script::settled(&noted, sctx_before, won, next)
                &&& if won && next is Boss {
                    &&& *self == (Script {
                        state: Script::state_after_battle(won, next),
                        texts: self.texts,
                        next_text: 0,
                        ..*before
                    })
                    &&& self.texts@.len() == 1
                    &&& self.texts@[0]@ == next->boss.spec_farewell()
                    &&& sctx.levels == noted.levels
                    &&& sctx.mctx == noted.mctx
                    &&& sctx.modes@.len() == 2
                    &&& sctx.modes@[0] == noted.modes@[0]
                    &&& sctx.modes@[1] matches Mode::TextBox(t) && t.text.holds(self.texts@[0]@, 0)
                } else {
                    &&& *self == (Script { state: ScriptState::Roaming, ..*before })
                    &&& Script::top_waits(sctx, &noted)
                }
            }
    }

    /// The context with the player shown again after a battle.
    pub open spec fn player_shown(shown: &ScriptContext, before: &ScriptContext) -> bool {
        &&& *shown == (ScriptContext {
            mctx: ModeContext { actors: shown.mctx.actors, ..before.mctx },
            ..*before
        })
        &&& before.mctx.actors@.len() > 0
        &&& shown.mctx.actors@ == before.mctx.actors@.update(
            0,
            Actor { visible: true, ..before.mctx.actors@[0] },
        )
    }

    /// What follows the end of a battle, once the battle is off the
    /// stack. The player is shown again. After a victory and after the
    /// player ran, the battle is dealt with and the story goes on. After
    /// a defeat the screen fades to black, and the way home follows.
    pub open spec fn battle_followed(
        &self,
        before: &Script,
        sctx: &ScriptContext,
        sctx_before: &ScriptContext,
        event: BattleEvent,
        next: AfterBattle,
        r: Poll<Result<(), ScriptError>>,
    ) -> bool {
        if event == BattleEvent::Defeat {
            exists|shown: ScriptContext, dark: ScriptContext| #[trigger]
                dark.fading_out(&shown, 90) && Script::player_shown(&shown, sctx_before)
                    && self.fade_run(before, sctx, &dark, AfterFade::DefeatHome { next }, r)
        } else {
            &&& r is Pending
            &&& self.state == Script::state_after_battle(event == BattleEvent::Victory, next)
            &&& exists|shown: ScriptContext| #[trigger]
                Script::player_shown(&shown, sctx_before) && self.battle_settled(
                    before,
                    sctx,
                    &shown,
                    event == BattleEvent::Victory,
                    next,
                )
        }
    }

    /// The player as it comes into the level `to` from the level `from`
    /// with a step in direction `dir`: on the tile that the step leads
    /// to, counted from the corner of the new level.
    pub open spec fn carried_over(player: Actor, from: &Level, to: &Level, dir: Direction) -> Actor {
        Actor {
            grid_x: clamp_i32(
                player.grid_x + crate::modes::battle::div_towards_zero(
                    from.px_world_x - to.px_world_x,
                    16,
                ) - dir.dx(),
            ),
            grid_y: clamp_i32(
                player.grid_y + crate::modes::battle::div_towards_zero(
                    from.px_world_y - to.px_world_y,
                    16,
                ) - dir.dy(),
            ),
            ..player
        }
    }

    /// The player has set off on the way into the level: it made the
    /// first step, and black is laid over the screen as far as the way is
    /// left to walk.
    pub open spec fn set_off_inwards(moved: &ScriptContext, there: &ScriptContext, dir: Direction) -> bool {
        let actors = there.mctx.actors@;
        let set_off = actors.update(0, actors[0].set_off(dir));
        &&& *moved == (ScriptContext {
            mctx: ModeContext { actors: moved.mctx.actors, fade: moved.mctx.fade, ..there.mctx },
            ..*there
        })
        &&& walk_step(set_off, moved.mctx.actors@, Poll::Pending) || walk_step(
            set_off,
            moved.mctx.actors@,
            Poll::Ready(()),
        )
        &&& moved.mctx.fade.recolored(
            &there.mctx.fade,
            there.mctx.fade.color().update(3, walk_fade(&moved.mctx.actors@[0], false)),
        )
    }

    /// The way into the level has begun: nothing is kept ready any
    /// more, the player has set off, and the story waits for it to
    /// arrive. Where the step is no way at all, the player moves freely
    /// at once, and free movement made one update.
    pub open spec fn walk_in_begun(
        &self,
        before: &Script,
        sctx: &ScriptContext,
        there: &ScriptContext,
        dir: Direction,
    ) -> bool {
        let player = there.mctx.actors@[0].set_off(dir);
        exists|moved: ScriptContext|
            {
                &&& #[trigger] Script::set_off_inwards(&moved, there, dir)
                &&& self.pending_level is None
                &&& self.pending_actors@.len() == 0
                &&& *self == (Script {
                    state: self.state,
                    pending_level: self.pending_level,
                    pending_actors: self.pending_actors,
                    ..*before
                })
                &&& if player.offset_x != 0 || player.offset_y != 0 {
                    self.state == (ScriptState::WalkingIn { dir }) && *sctx == moved
                } else {
                    self.state == ScriptState::Roaming && Script::top_waits(sctx, &moved)
                }
            }
    }

    /// What the step that ends the way out of a level does: the level that
    /// was kept ready takes the place of the old one, with the player
    /// before its actors, and what the story does on entering it follows.
    /// A fault there ends the story; else the player walks in.
    pub open spec fn walked_out(
        &self,
        before: &Script,
        sctx: &ScriptContext,
        sctx_before: &ScriptContext,
        dir: Direction,
        r: Poll<Result<(), ScriptError>>,
    ) -> bool {
        exists|mid: ScriptContext, there: ScriptContext, w: Result<(), ScriptError>|
            {
                &&& match w {
                    Ok(_) => self.walk_in_begun(before, sctx, &there, dir),
                    Err(_) => *sctx == there,
                }
                &&& #[trigger] Script::entered(&there, &mid, w)
                &&& before.pending_level matches Some(level) && mid == (ScriptContext {
                    mctx: ModeContext { level, actors: mid.mctx.actors, ..sctx_before.mctx },
                    ..*sctx_before
                }) && mid.mctx.actors@ == seq![
                    Script::carried_over(
                        sctx_before.mctx.actors@[0],
                        &sctx_before.mctx.level,
                        &level,
                        dir,
                    ),
                ] + before.pending_actors@
                &&& Script::ends(r, Script::fault_of(w))
            }
    }

    /// The story ends with an error.
    fn fail(&mut self, e: ScriptError) -> (r: Poll<Result<(), ScriptError>>)
        ensures
            *final(self) == (Script { state: ScriptState::Finished, ..*old(self) }),
            final(self).state == ScriptState::Finished,
            r == Poll::Ready(Err::<(), ScriptError>(e)),
            final(self).polls == old(self).polls,
    {
        self.state = ScriptState::Finished;
        Poll::Ready(Err(e))
    }

    /// The player moves freely again.
    fn roam(&mut self, sctx: &mut ScriptContext) -> (r: Poll<Result<(), ScriptError>>)
        requires
            old(sctx).wf(),
            old(sctx).modes@.len() == 1,
            Script::base_parked(old(sctx)),
            Script::at_rest(old(sctx)),
        ensures
            final(self).polls == old(self).polls,
            r is Pending,
            final(self).state == ScriptState::Roaming,
            final(self).holds(final(sctx)),
            *final(self) == (Script { state: ScriptState::Roaming, ..*old(self) }),
            Script::top_waits(final(sctx), old(sctx)),
    {
        match sctx.modes.update_walk_around_mode(&mut sctx.mctx) {
            Poll::Pending => {
                self.state = ScriptState::Roaming;
                Poll::Pending
            },
            Poll::Ready(_) => unreached(),
        }
    }

    /// A row of texts was to be shown. The first text is put up in a
    /// text box over the level, and the story waits for the row to be
    /// read. An empty row is followed at once by what comes next.
    pub open spec fn row_shown(
        &self,
        before: &Script,
        sctx: &ScriptContext,
        sctx_before: &ScriptContext,
        texts: Vec<String>,
        next: AfterTexts,
        r: Poll<Result<(), ScriptError>>,
    ) -> bool {
        if texts@.len() == 0 {
            self.texts_followed(
                &Script { texts, next_text: 0, ..*before },
                sctx,
                sctx_before,
                next,
                r,
            )
        } else {
            &&& r is Pending
            &&& *self == (Script { state: ScriptState::Texts { next }, texts, next_text: 0, ..*before })
            &&& sctx.levels == sctx_before.levels
            &&& sctx.mctx == sctx_before.mctx
            &&& sctx.modes@.len() == 2
            &&& sctx.modes@[0] == sctx_before.modes@[0]
            &&& sctx.modes@[1] matches Mode::TextBox(t) && t.text.holds(texts@[0]@, 0)
        }
    }

    /// Shows a row of texts, one text box after the other, and goes on
    /// with `next`; at once where the row is empty.
    fn show_texts(&mut self, sctx: &mut ScriptContext, texts: Vec<String>, next: AfterTexts) -> (r:
        Poll<Result<(), ScriptError>>)
        requires
            old(sctx).wf(),
            old(sctx).modes@.len() == 1,
            Script::base_parked(old(sctx)),
            Script::at_rest(old(sctx)),
        ensures
            final(self).polls == old(self).polls,
            final(self).holds(final(sctx)),
            (r is Ready) == (final(self).state == ScriptState::Finished),
            !(r matches Poll::Ready(Ok(_))),
            Script::ends(
                r,
                if texts@.len() == 0 {
                    Script::texts_fault(old(sctx), next)
                } else {
                    None
                },
            ),
            r is Pending ==> final(self).state == if texts@.len() == 0 {
                Script::state_after_texts(next)
            } else {
                ScriptState::Texts { next }
            },
            final(self).row_shown(old(self), final(sctx), old(sctx), texts, next, r),
    {
        self.texts = texts;
        self.next_text = 0;
        if self.texts.len() == 0 {
            self.after_texts(sctx, next)
        } else {
            self.show_next_text(sctx, next)
        }
    }

    /// Puts the text box of the next text on the stack.
    fn show_next_text(&mut self, sctx: &mut ScriptContext, next: AfterTexts) -> (r: Poll<
        Result<(), ScriptError>,
    >)
        requires
            old(sctx).wf(),
            old(sctx).modes@.len() == 1,
            Script::base_parked(old(sctx)),
            Script::at_rest(old(sctx)),
            old(self).next_text < old(self).texts@.len(),
        ensures
            final(self).polls == old(self).polls,
            r is Pending,
            final(self).state == (ScriptState::Texts { next }),
            final(self).holds(final(sctx)),
            *final(self) == (Script { state: ScriptState::Texts { next }, ..*old(self) }),
            final(sctx).levels == old(sctx).levels,
            final(sctx).mctx == old(sctx).mctx,
            final(sctx).modes@.len() == 2,
            final(sctx).modes@[0] == old(sctx).modes@[0],
            final(sctx).modes@[1] matches Mode::TextBox(t) && t.text.holds(
                old(self).texts@[old(self).next_text as int]@,
                0,
            ),
    {
        sctx.push_text_box_mode(self.texts[self.next_text].as_str());
        match sctx.modes.update_text_box_mode(&mut sctx.mctx) {
            Poll::Pending => {
                self.state = ScriptState::Texts { next };
                Poll::Pending
            },
            Poll::Ready(_) => unreached(),
        }
    }

    /// Puts a battle on the stack.
    fn begin_battle(&mut self, sctx: &mut ScriptContext, enemy: Enemy, boss_fight: bool, next: AfterBattle) -> (r:
        Poll<Result<(), ScriptError>>)
        requires
            old(sctx).wf(),
            old(sctx).modes@.len() == 1,
            Script::base_parked(old(sctx)),
            Script::at_rest(old(sctx)),
        ensures
            final(self).polls == old(self).polls,
            final(self).holds(final(sctx)),
            (r is Ready) == (final(self).state == ScriptState::Finished),
            r matches Poll::Ready(Err(e)) ==> e is MissingSprite,
            !(r matches Poll::Ready(Ok(_))),
            r is Pending ==> final(self).state == (ScriptState::InBattle { next }),
            Script::ends(r, Script::sprite_fault(old(sctx), enemy@.sprite_path)),
            r is Pending ==> final(self).battle_begun(
                old(self),
                final(sctx),
                old(sctx),
                enemy@,
                boss_fight,
                next,
            ),
            r is Ready ==> *final(sctx) == *old(sctx),
    {
        if !sctx.push_battle_mode(enemy, boss_fight) {
            return self.fail(ScriptError::MissingSprite);
        }
        sctx.mctx.actors[0].visible = false;
        let ghost pushed = *sctx;
        proof {
            assert(actors_wf(sctx.mctx.actors@)) by {
                assert forall|i: int| 0 <= i < sctx.mctx.actors@.len() implies (
                #[trigger] sctx.mctx.actors@[i]).wf() by {
                    if i > 0 {
                        assert(sctx.mctx.actors@[i] == old(sctx).mctx.actors@[i]);
                    }
                }
            }
        }
        match sctx.modes.update_battle_mode(&mut sctx.mctx) {
            Poll::Pending => {
                self.state = ScriptState::InBattle { next };
                proof {
                    assert(Script::top_waits(sctx, &pushed));
                }
                Poll::Pending
            },
            Poll::Ready(_) => unreached(),
        }
    }

    /// The spirit that challenged the player is hidden for the battle;
    /// nothing else changed.
    pub open spec fn spirit_hidden(hidden: &ScriptContext, before: &ScriptContext, boss: Boss) -> bool {
        let actors = before.mctx.actors@;
        let at = actor_position(actors, boss.spec_actor_type());
        &&& *hidden == (ScriptContext {
            mctx: ModeContext { actors: hidden.mctx.actors, ..before.mctx },
            ..*before
        })
        &&& hidden.mctx.actors@ == if 0 < at < actors.len() {
            actors.update(at, Actor { visible: false, ..actors[at] })
        } else {
            actors
        }
    }

    /// What the story makes of the context once a row of texts has been
    /// read to its end, before the player moves freely again. A spirit
    /// that was won over is gone from the level and counts as won over.
    /// A chest that was emptied counts as opened, and one whose content
    /// was left closes again. The lever that was spoken of is turned.
    /// After any other row nothing changes.
    pub open spec fn read_out(after: &ScriptContext, before: &ScriptContext, next: AfterTexts) -> bool {
        let actors = before.mctx.actors@;
        let progress = before.mctx.progress;
        match next {
            AfterTexts::BossDefeated { boss } => {
                let at = actor_position(actors, boss.spec_actor_type());
                &&& *after == (ScriptContext {
                    mctx: ModeContext {
                        actors: after.mctx.actors,
                        progress: after.mctx.progress,
                        ..before.mctx
                    },
                    ..*before
                })
                &&& after.mctx.actors@ == if 0 < at < actors.len() {
                    actors.remove(at)
                } else {
                    actors
                }
                &&& after.mctx.progress == (crate::progress::Progress {
                    earth_defeated: boss == Boss::Earth || progress.earth_defeated,
                    water_defeated: boss == Boss::Water || progress.water_defeated,
                    fire_defeated: boss == Boss::Fire || progress.fire_defeated,
                    ..progress
                })
            },
            AfterTexts::ChestTaken => {
                let chests = after.mctx.progress.collected_chests@;
                &&& *after == (ScriptContext {
                    mctx: ModeContext { progress: after.mctx.progress, ..before.mctx },
                    ..*before
                })
                &&& after.mctx.progress == (crate::progress::Progress {
                    collected_chests: after.mctx.progress.collected_chests,
                    ..progress
                })
                &&& chests.len() == progress.collected_chests@.len() + 1
                &&& chests.drop_last() == progress.collected_chests@
                &&& chests.last()@ == before.mctx.level.identifier@
            },
            AfterTexts::ChestRefused { actor } => {
                &&& *after == (ScriptContext {
                    mctx: ModeContext { actors: after.mctx.actors, ..before.mctx },
                    ..*before
                })
                &&& after.mctx.actors@.len() == actors.len()
                &&& forall|i: int|
                    0 <= i < actors.len() && i != actor ==> #[trigger] after.mctx.actors@[i]
                        == actors[i]
                &&& 0 < actor < actors.len() ==> after.mctx.actors@[actor as int].same_but_playback(
                    &actors[actor as int],
                ) && after.mctx.actors@[actor as int].sprite().playback()
                    == actors[actor as int].sprite().start_at(
                    actors[actor as int].sprite().playback(),
                    "closed"@,
                )
                &&& actor == 0 ==> after.mctx.actors@[0] == actors[0]
            },
            AfterTexts::Lever => after.lever_toggled(before),
            _ => *after == *before,
        }
    }

    /// What follows a row of texts that has been read to its end: the
    /// tick ends with the fault of what comes next where it has one and
    /// goes on where it has none. Where no battle comes next, the story
    /// takes note of what the texts were about and the player moves
    /// freely again: free movement made one update. A battle that was
    /// lost is dealt with, and where a spirit challenged the player, the
    /// spirit is hidden and the battle against it begins.
    pub open spec fn texts_followed(
        &self,
        before: &Script,
        sctx: &ScriptContext,
        sctx_before: &ScriptContext,
        next: AfterTexts,
        r: Poll<Result<(), ScriptError>>,
    ) -> bool {
        &&& Script::ends(r, Script::texts_fault(sctx_before, next))
        &&& r is Pending ==> self.state == Script::state_after_texts(next)
        &&& !(next is BossBattle) && !(next is BattleLost) ==> *self == (Script {
            state: ScriptState::Roaming,
            ..*before
        }) && exists|noted: ScriptContext| #[trigger]
            Script::read_out(&noted, sctx_before, next) && Script::top_waits(sctx, &noted)
        &&& next is BattleLost ==> self.battle_settled(
            before,
            sctx,
            sctx_before,
            false,
            next->BattleLost_next,
        )
        &&& next is BossBattle && r is Pending ==> exists|hidden: ScriptContext| #[trigger]
            Script::spirit_hidden(&hidden, sctx_before, next->BossBattle_boss)
                && self.battle_begun(
                before,
                sctx,
                &hidden,
                next->BossBattle_boss.spec_enemy(),
                true,
                AfterBattle::Boss { boss: next->BossBattle_boss },
            )
    }

    /// What follows a row of text boxes.
    fn after_texts(&mut self, sctx: &mut ScriptContext, next: AfterTexts) -> (r: Poll<
        Result<(), ScriptError>,
    >)
        requires
            old(sctx).wf(),
            old(sctx).modes@.len() == 1,
            Script::base_parked(old(sctx)),
            Script::at_rest(old(sctx)),
        ensures
            final(self).polls == old(self).polls,
            final(self).holds(final(sctx)),
            (r is Ready) == (final(self).state == ScriptState::Finished),
            !(r matches Poll::Ready(Ok(_))),
            Script::ends(r, Script::texts_fault(old(sctx), next)),
            final(self).texts_followed(old(self), final(sctx), old(sctx), next, r),
    {
        match next {
            AfterTexts::Roam => {
                let ghost noted = *sctx;
                let r = self.roam(sctx);
                proof {
                    assert(Script::read_out(&noted, old(sctx), next));
                }
                r
            },
            AfterTexts::BossBattle { boss } => {
                match find_actor(&sctx.mctx.actors, boss.actor_type()) {
                    Some(actor) => {
                        if actor > 0 {
                            sctx.mctx.actors[actor].visible = false;
                            proof {
                                lemma_actor_changed(
                                    sctx.mctx.actors@,
                                    old(sctx).mctx.actors@,
                                    actor as int,
                                );
                            }
                        }
                        let ghost hidden = *sctx;
                        let r = self.begin_battle(
                            sctx,
                            boss.enemy(),
                            true,
                            AfterBattle::Boss { boss },
                        );
                        proof {
                            crate::contexts::lemma_actor_position(
                                old(sctx).mctx.actors@,
                                boss.spec_actor_type(),
                            );
                            assert(Script::spirit_hidden(&hidden, old(sctx), boss));
                        }
                        r
                    },
                    None => self.fail(ScriptError::MissingActor),
                }
            },
            AfterTexts::BossDefeated { boss } => {
                match find_actor(&sctx.mctx.actors, boss.actor_type()) {
                    Some(actor) => {
                        if actor > 0 {
                            sctx.mctx.actors.remove(actor);
                            proof {
                                assert forall|i: int|
                                    0 <= i < sctx.mctx.actors@.len() implies (
                                #[trigger] sctx.mctx.actors@[i]).wf() by {
                                    if i < actor {
                                        assert(sctx.mctx.actors@[i] == old(sctx).mctx.actors@[i]);
                                    } else {
                                        assert(sctx.mctx.actors@[i] == old(sctx).mctx.actors@[i + 1]);
                                    }
                                }
                            }
                        }
                    },
                    None => {},
                }
                match boss {
                    Boss::Earth => {
                        sctx.mctx.progress.earth_defeated = true;
                    },
                    Boss::Water => {
                        sctx.mctx.progress.water_defeated = true;
                    },
                    Boss::Fire => {
                        sctx.mctx.progress.fire_defeated = true;
                    },
                }
                let ghost noted = *sctx;
                let r = self.roam(sctx);
                proof {
                    crate::contexts::lemma_actor_position(
                        old(sctx).mctx.actors@,
                        boss.spec_actor_type(),
                    );
                    assert(Script::read_out(&noted, old(sctx), next));
                }
                r
            },
            AfterTexts::ChestTaken => {
                sctx.mctx.progress.collected_chests.push(sctx.mctx.level.identifier.clone());
                let ghost noted = *sctx;
                let r = self.roam(sctx);
                proof {
                    assert(noted.mctx.progress.collected_chests@.drop_last()
                        =~= old(sctx).mctx.progress.collected_chests@);
                    assert(Script::read_out(&noted, old(sctx), next));
                }
                r
            },
            AfterTexts::ChestRefused { actor } => {
                if 0 < actor && actor < sctx.mctx.actors.len() {
                    let _ = sctx.mctx.actors[actor].start_animation("closed");
                    proof {
                        lemma_actor_changed(sctx.mctx.actors@, old(sctx).mctx.actors@, actor as int);
                    }
                }
                let ghost noted = *sctx;
                let r = self.roam(sctx);
                proof {
                    assert(Script::read_out(&noted, old(sctx), next));
                }
                r
            },
            AfterTexts::Lever => {
                sctx.toggle_lever();
                let ghost noted = *sctx;
                let r = self.roam(sctx);
                proof {
                    assert(Script::read_out(&noted, old(sctx), next));
                }
                r
            },
            AfterTexts::BattleLost { next } => self.battle_done(sctx, false, next),
        }
    }

    /// What follows a battle that was won or not.
    fn battle_done(&mut self, sctx: &mut ScriptContext, won: bool, next: AfterBattle) -> (r: Poll<
        Result<(), ScriptError>,
    >)
        requires
            old(sctx).wf(),
            old(sctx).modes@.len() == 1,
            Script::base_parked(old(sctx)),
            Script::at_rest(old(sctx)),
        ensures
            final(self).polls == old(self).polls,
            final(self).holds(final(sctx)),
            (r is Ready) == (final(self).state == ScriptState::Finished),
            !(r matches Poll::Ready(Ok(_))),
            r is Pending,
            final(self).state == Script::state_after_battle(won, next),
            final(self).battle_settled(old(self), final(sctx), old(sctx), won, next),
    {
        match next {
            AfterBattle::Roam => {
                let r = self.roam(sctx);
                proof {
                    assert(Script::settled(old(sctx), old(sctx), won, next));
                }
                r
            },
            AfterBattle::Encounter => {
                sctx.mctx.encounter_steps = 20 + sctx.mctx.rng.random(31) as i32;
                let ghost noted = *sctx;
                let r = self.roam(sctx);
                proof {
                    assert(Script::settled(&noted, old(sctx), won, next));
                }
                r
            },
            AfterBattle::Boss { boss } => {
                if !won {
                    let r = self.roam(sctx);
                    proof {
                        assert(Script::settled(old(sctx), old(sctx), won, next));
                    }
                    return r;
                }
                match find_actor(&sctx.mctx.actors, boss.actor_type()) {
                    Some(actor) => {
                        if actor > 0 {
                            sctx.mctx.actors[actor].visible = true;
                            proof {
                                lemma_actor_changed(
                                    sctx.mctx.actors@,
                                    old(sctx).mctx.actors@,
                                    actor as int,
                                );
                            }
                        }
                    },
                    None => {},
                }
                let ghost noted = *sctx;
                let mut texts: Vec<String> = Vec::new();
                texts.push(text(boss.farewell()));
                self.texts = texts;
                self.next_text = 0;
                let r = self.show_next_text(sctx, AfterTexts::BossDefeated { boss });
                proof {
                    crate::contexts::lemma_actor_position(
                        old(sctx).mctx.actors@,
                        boss.spec_actor_type(),
                    );
                    assert(Script::settled(&noted, old(sctx), won, next));
                }
                r
            },
        }
    }
}

/// How far a fade that follows the night in bed has to go: first out
/// and in, then to the text.
pub open spec fn fade_rank(next: AfterFade) -> nat {
    match next {
        AfterFade::BedWake => 2,
        AfterFade::BedRested => 1,
        AfterFade::DefeatHome { .. } => 2,
        AfterFade::DefeatAwake { .. } => 1,
    }
}

/// How far black is laid over the screen, in thousandths, while the
/// player walks out of a level or into one: as far as the step out is
/// covered, or as far as the step in is not.
pub open spec fn walk_fade(player: &Actor, out: bool) -> i32 {
    let covered = if offset_covered(player) < 0 {
        0
    } else {
        offset_covered(player)
    };
    if out {
        (covered * 1000 / TILE_SIZE as int) as i32
    } else {
        ((TILE_SIZE - covered) * 1000 / TILE_SIZE as int) as i32
    }
}

impl Script {
    /// Goes on with the fade in progress, and with what follows it once
    /// it is over.
    fn fade_then(&mut self, sctx: &mut ScriptContext, next: AfterFade) -> (r: Poll<
        Result<(), ScriptError>,
    >)
        requires
            old(sctx).wf(),
            old(sctx).modes@.len() == 1,
            Script::base_parked(old(sctx)),
            Script::at_rest(old(sctx)),
        ensures
            final(self).polls == old(self).polls,
            final(self).holds(final(sctx)),
            (r is Ready) == (final(self).state == ScriptState::Finished),
            !(r matches Poll::Ready(Ok(_))),
            final(self).fade_run(old(self), final(sctx), old(sctx), next, r),
            !(next is DefeatHome) ==> r is Pending,
        decreases 2 * fade_rank(next) + 1,
    {
        match sctx.fade_step() {
            Poll::Pending => {
                self.state = ScriptState::Fading { next };
                Poll::Pending
            },
            Poll::Ready(_) => self.after_fade(sctx, next),
        }
    }

    /// What follows a fade of the screen.
    fn after_fade(&mut self, sctx: &mut ScriptContext, next: AfterFade) -> (r: Poll<
        Result<(), ScriptError>,
    >)
        requires
            old(sctx).wf(),
            old(sctx).modes@.len() == 1,
            Script::base_parked(old(sctx)),
            Script::at_rest(old(sctx)),
        ensures
            final(self).polls == old(self).polls,
            final(self).holds(final(sctx)),
            (r is Ready) == (final(self).state == ScriptState::Finished),
            !(r matches Poll::Ready(Ok(_))),
            final(self).fade_over(old(self), final(sctx), old(sctx), next, r),
            !(next is DefeatHome) ==> r is Pending,
        decreases 2 * fade_rank(next),
    {
        match next {
            AfterFade::BedWake => {
                sctx.fade_in(60);
                let ghost lit = *sctx;
                let r = self.fade_then(sctx, AfterFade::BedRested);
                proof {
                    assert(lit.fading_in(old(sctx), 60));
                }
                r
            },
            AfterFade::BedRested => {
                sctx.mctx.progress.hp = sctx.mctx.progress.max_hp;
                sctx.mctx.progress.mp = sctx.mctx.progress.max_mp;
                let mut texts: Vec<String> = Vec::new();
                texts.push(text("HP and MP recovered!"));
                let ghost rested = *sctx;
                let ghost shown = texts;
                let r = self.show_texts(sctx, texts, AfterTexts::Roam);
                proof {
                    assert(lines(shown@) =~= seq!["HP and MP recovered!"@]);
                    assert(self.row_shown(old(self), sctx, &rested, shown, AfterTexts::Roam, r));
                }
                r
            },
            AfterFade::DefeatHome { next } => {
                match self.warp_to_level(sctx, "Start", 6, 3) {
                    Err(e) => {
                        return self.fail(e);
                    },
                    Ok(()) => {},
                }
                let ghost there = *sctx;
                sctx.mctx.progress.hp = sctx.mctx.progress.max_hp;
                sctx.mctx.progress.mp = sctx.mctx.progress.max_mp;
                let ghost rested = *sctx;
                sctx.fade_in(90);
                let ghost lit = *sctx;
                let r = self.fade_then(sctx, AfterFade::DefeatAwake { next });
                proof {
                    assert(Script::warped(&there, old(sctx), "Start"@, 6, 3, Ok::<(), ScriptError>(())));
                    assert(Script::rested(&rested, &there));
                    assert(lit.fading_in(&rested, 90));
                }
                r
            },
            AfterFade::DefeatAwake { next } => {
                let mut texts: Vec<String> = Vec::new();
                texts.push(text("Coric:\nOuch!"));
                let ghost shown = texts;
                let r = self.show_texts(sctx, texts, AfterTexts::BattleLost { next });
                proof {
                    assert(lines(shown@) =~= seq!["Coric:\nOuch!"@]);
                    assert(self.row_shown(
                        old(self),
                        sctx,
                        old(sctx),
                        shown,
                        AfterTexts::BattleLost { next },
                        r,
                    ));
                }
                r
            },
        }
    }

    /// The spirit that waits in the level called `name`, if one does.
    pub open spec fn level_boss(name: Seq<char>) -> Option<Boss> {
        if name == "Earth_4"@ {
            Some(Boss::Earth)
        } else if name == "Water_4"@ {
            Some(Boss::Water)
        } else if name == "Fire_4"@ {
            Some(Boss::Fire)
        } else {
            None
        }
    }

    /// Gates were put on the tile (`tile_x`, `tile_y`) of the level and
    /// on the tile to its right, where both lie in the level; nothing
    /// else changed.
    pub open spec fn gated(
        after: &ScriptContext,
        before: &ScriptContext,
        tile_x: i32,
        tile_y: i32,
    ) -> bool {
        let props = before.mctx.level.props();
        let offset = 4 * (tile_y * props.c_wid() + tile_x);
        &&& *after == (ScriptContext {
            mctx: ModeContext { level: after.mctx.level, ..before.mctx },
            ..*before
        })
        &&& after.mctx.level.same_but_props(&before.mctx.level)
        &&& after.mctx.level.props().tile_data() == if props.in_bounds(tile_x as int, tile_y as int)
            && props.in_bounds(tile_x + 1, tile_y as int) {
            props.tile_data().update(offset, crate::levels::GATE_TILE.0).update(
                offset + 1,
                crate::levels::GATE_TILE.1,
            ).update(offset + 4, crate::levels::GATE_TILE.0).update(
                offset + 5,
                crate::levels::GATE_TILE.1,
            )
        } else {
            props.tile_data()
        }
    }

    /// The actor at position `at` is gone; nothing else changed.
    pub open spec fn gone(after: &ScriptContext, before: &ScriptContext, at: int) -> bool {
        &&& *after == (ScriptContext {
            mctx: ModeContext { actors: after.mctx.actors, ..before.mctx },
            ..*before
        })
        &&& after.mctx.actors@ == before.mctx.actors@.remove(at)
    }

    /// What entering a level does, by the name of the level. In the
    /// level before the castle of earth gates bar the way until the
    /// spirit of earth is won over, and in the one before the castle of
    /// water until the spirit of water is. In the level of a spirit that
    /// is won over the spirit is gone; that it is not among the actors
    /// other than the player is an error. Else nothing happens.
    pub open spec fn entered(
        after: &ScriptContext,
        before: &ScriptContext,
        r: Result<(), ScriptError>,
    ) -> bool {
        let name = before.mctx.level.identifier@;
        let p = &before.mctx.progress;
        if name == "Level_10"@ {
            &&& r is Ok
            &&& if p.earth_defeated {
                *after == *before
            } else {
                Script::gated(after, before, 9, 10)
            }
        } else if name == "Level_17"@ {
            &&& r is Ok
            &&& if p.water_defeated {
                *after == *before
            } else {
                Script::gated(after, before, 29, 12)
            }
        } else {
            match Script::level_boss(name) {
                Some(boss) => {
                    let at = actor_position(before.mctx.actors@, boss.spec_actor_type());
                    if !boss.spec_defeated(p) {
                        r is Ok && *after == *before
                    } else if 0 < at < before.mctx.actors@.len() {
                        r is Ok && Script::gone(after, before, at)
                    } else {
                        r == Err::<(), ScriptError>(ScriptError::MissingActor) && *after == *before
                    }
                },
                None => r is Ok && *after == *before,
            }
        }
    }

    /// What the story does when the player enters a level: gates bar the
    /// way to the castles whose spirits came before, and a spirit that was
    /// won over is gone.
    fn run_level_on_enter(sctx: &mut ScriptContext) -> (r: Result<(), ScriptError>)
        requires
            old(sctx).wf(),
        ensures
            final(sctx).wf(),
            final(sctx).modes == old(sctx).modes,
            final(sctx).mctx.actors@[0] == old(sctx).mctx.actors@[0],
            r matches Err(e) ==> e is MissingActor,
            Script::entered(final(sctx), old(sctx), r),
    {
        proof {
            crate::contexts::lemma_actor_position(old(sctx).mctx.actors@, ActorType::Earth);
            crate::contexts::lemma_actor_position(old(sctx).mctx.actors@, ActorType::Water);
            crate::contexts::lemma_actor_position(old(sctx).mctx.actors@, ActorType::Fire);
        }
        let name = sctx.mctx.level.identifier.clone();
        if crate::strings::str_eq(name.as_str(), "Level_10") {
            if !sctx.mctx.progress.earth_defeated {
                let _ = sctx.place_gates(9, 10);
            }
            Ok(())
        } else if crate::strings::str_eq(name.as_str(), "Level_17") {
            if !sctx.mctx.progress.water_defeated {
                let _ = sctx.place_gates(29, 12);
            }
            Ok(())
        } else {
            let boss = if crate::strings::str_eq(name.as_str(), "Earth_4") {
                Some(Boss::Earth)
            } else if crate::strings::str_eq(name.as_str(), "Water_4") {
                Some(Boss::Water)
            } else if crate::strings::str_eq(name.as_str(), "Fire_4") {
                Some(Boss::Fire)
            } else {
                None
            };
            match boss {
                Some(boss) => {
                    if boss.defeated(&sctx.mctx.progress) {
                        match find_actor(&sctx.mctx.actors, boss.actor_type()) {
                            Some(actor) => {
                                if actor == 0 {
                                    return Err(ScriptError::MissingActor);
                                }
                                sctx.mctx.actors.remove(actor);
                                proof {
                                    assert forall|i: int|
                                        0 <= i < sctx.mctx.actors@.len() implies (
                                    #[trigger] sctx.mctx.actors@[i]).wf() by {
                                        if i < actor {
                                            assert(sctx.mctx.actors@[i] == old(sctx).mctx.actors@[i]);
                                        } else {
                                            assert(sctx.mctx.actors@[i] == old(sctx).mctx.actors@[i + 1]);
                                        }
                                    }
                                }
                                Ok(())
                            },
                            None => Err(ScriptError::MissingActor),
                        }
                    } else {
                        Ok(())
                    }
                },
                None => Ok(()),
            }
        }
    }

    /// Puts the player into a level under a new set of actors, at the
    /// place where the player stood among the old ones.
    fn enter_level(sctx: &mut ScriptContext, level: Level, actors: Vec<Actor>)
        requires
            old(sctx).wf(),
            level.wf(),
            actors_wf(actors@),
        ensures
            final(sctx).wf(),
            final(sctx).modes == old(sctx).modes,
            final(sctx).mctx.actors@[0] == old(sctx).mctx.actors@[0],
            final(sctx).mctx.actors@.len() == actors@.len() + 1,
            final(sctx).mctx.level == level,
            final(sctx).mctx.actors@ == seq![old(sctx).mctx.actors@[0]] + actors@,
            *final(sctx) == (ScriptContext {
                mctx: ModeContext { level, actors: final(sctx).mctx.actors, ..old(sctx).mctx },
                ..*old(sctx)
            }),
    {
        let ghost fresh = actors@;
        let mut actors = actors;
        sctx.mctx.actors.truncate(1);
        core::mem::swap(&mut sctx.mctx.actors, &mut actors);
        let player = actors.pop();
        match player {
            Some(player) => {
                sctx.mctx.actors.insert(0, player);
            },
            None => {},
        }
        sctx.mctx.level = level;
        proof {
            assert(sctx.mctx.actors@ =~= seq![old(sctx).mctx.actors@[0]] + fresh);
            assert forall|i: int| 0 <= i < sctx.mctx.actors@.len() implies (
            #[trigger] sctx.mctx.actors@[i]).wf() by {
                if i > 0 {
                    assert(sctx.mctx.actors@[i] == fresh[i - 1]);
                }
            }
        }
    }

    /// The player has come to the tile (`x`, `y`) of the level called
    /// `level_id`, facing south: level and actors are what the world
    /// holds under that name, as the player's progress has left them,
    /// with the player before the other actors.
    pub open spec fn arrived(
        after: &ScriptContext,
        before: &ScriptContext,
        level_id: Seq<char>,
        x: i32,
        y: i32,
    ) -> bool {
        let player = before.mctx.actors@[0];
        &&& *after == (ScriptContext {
            mctx: ModeContext {
                level: after.mctx.level,
                actors: after.mctx.actors,
                ..before.mctx
            },
            ..*before
        })
        &&& after.mctx.actors@.len() >= 1
        &&& after.mctx.actors@[0].same_but_playback(&Actor { grid_x: x, grid_y: y, ..player })
        &&& after.mctx.actors@[0].sprite().playback() == player.sprite().start_at(
            player.sprite().playback(),
            "face_s"@,
        )
        &&& 0 <= before.levels.by_identifier(level_id) < before.levels.levels@.len()
        &&& before.made_of(
            &after.mctx.level,
            after.mctx.actors@.skip(1),
            &before.levels.levels@[before.levels.by_identifier(level_id)],
        )
    }

    /// What a warp makes of the context: where the level cannot be had,
    /// that is the error and nothing changes; else the player arrives in
    /// the level, and what the story does on entering it follows.
    pub open spec fn warped(
        after: &ScriptContext,
        before: &ScriptContext,
        level_id: Seq<char>,
        x: i32,
        y: i32,
        r: Result<(), ScriptError>,
    ) -> bool {
        match before.levels.build_fault(&before.mctx.res, before.levels.by_identifier(level_id)) {
            Some(e) => r == Err::<(), ScriptError>(ScriptError::Level(e)) && *after == *before,
            None => exists|mid: ScriptContext| #[trigger]
                Script::arrived(&mid, before, level_id, x, y) && Script::entered(after, &mid, r),
        }
    }

    /// Brings the player to a tile of the level called `level_id`.
    fn warp_to_level(&mut self, sctx: &mut ScriptContext, level_id: &str, x: i32, y: i32) -> (r:
        Result<(), ScriptError>)
        requires
            old(sctx).wf(),
            old(sctx).modes@.len() == 1,
            Script::base_parked(old(sctx)),
            Script::at_rest(old(sctx)),
        ensures
            *final(self) == *old(self),
            final(sctx).wf(),
            final(sctx).modes == old(sctx).modes,
            Script::at_rest(final(sctx)),
            r matches Err(e) ==> e is Level || e is MissingActor,
            Script::warped(final(sctx), old(sctx), level_id@, x, y, r),
    {
        let (level, actors) = match sctx.level_by_identifier(level_id) {
            Ok(found) => found,
            Err(e) => {
                return Err(ScriptError::Level(e));
            },
        };
        sctx.mctx.actors[0].grid_x = x;
        sctx.mctx.actors[0].grid_y = y;
        let _ = sctx.mctx.actors[0].start_animation("face_s");
        proof {
            assert forall|i: int| 0 <= i < sctx.mctx.actors@.len() implies (
            #[trigger] sctx.mctx.actors@[i]).wf() by {
                if i > 0 {
                    assert(sctx.mctx.actors@[i] == old(sctx).mctx.actors@[i]);
                }
            }
        }
        let ghost cast = actors@;
        Script::enter_level(sctx, level, actors);
        let ghost mid = *sctx;
        let r = Script::run_level_on_enter(sctx);
        proof {
            assert(mid.mctx.actors@.skip(1) =~= cast);
            assert(Script::arrived(&mid, old(sctx), level_id@, x, y));
            assert(Script::entered(sctx, &mid, r));
        }
        r
    }
}

impl Script {
    /// What Ducille has to say and to give: she teaches the magic that
    /// heals, fills the player's stock of items, and gives advice.
    fn ducille(&mut self, sctx: &mut ScriptContext) -> (texts: Vec<String>)
        requires
            old(sctx).wf(),
        ensures
            final(sctx).wf(),
            final(sctx).modes == old(sctx).modes,
            final(sctx).mctx.actors == old(sctx).mctx.actors,
            *final(self) == *old(self),
            *final(sctx) == (ScriptContext {
                mctx: ModeContext { progress: final(sctx).mctx.progress, ..old(sctx).mctx },
                ..*old(sctx)
            }),
            ducille_gives(&final(sctx).mctx.progress, &old(sctx).mctx.progress),
            lines(texts@) == ducille_texts(&old(sctx).mctx.progress),
    {
        let mut texts: Vec<String> = Vec::new();
        assert(lines(texts@) =~= Seq::<Seq<char>>::empty());
        if !sctx.mctx.progress.magic[0].known {
            say(
                &mut texts,
                text("Ducille:\nIt's dangerous out there;\nI can teach you some magic."),
            );
            learn(&mut sctx.mctx.progress, Magic::Heal);
            say(&mut texts, make_learned_text(Magic::Heal));
            say(&mut texts, text("Ducille:\nDon't hesitate to use it\nif you get low on health."));
        }
        let ghost lesson = lines(texts@);
        let (salves, xsalves, tonics): (i32, i32, i32) = if !sctx.mctx.progress.earth_defeated {
            (1, 0, 1)
        } else if !sctx.mctx.progress.water_defeated {
            (2, 0, 2)
        } else {
            (1, 1, 2)
        };
        proof {
            sctx.mctx.progress.lemma_item_slots(Item::Salve);
        }
        let salves_given = sctx.mctx.progress.maybe_give_items(Item::Salve, salves);
        proof {
            sctx.mctx.progress.lemma_item_slots(Item::XSalve);
        }
        let xsalves_given = sctx.mctx.progress.maybe_give_items(Item::XSalve, xsalves);
        proof {
            sctx.mctx.progress.lemma_item_slots(Item::Tonic);
        }
        let tonics_given = sctx.mctx.progress.maybe_give_items(Item::Tonic, tonics);
        if salves_given > 0 || xsalves_given > 0 || tonics_given > 0 {
            say(&mut texts, text("Ducille:\nYou need items, Coric?\nLet's see what I can find..."));
        }
        let ghost word = lines(texts@);
        if salves_given > 0 {
            say(&mut texts, make_got_items(salves_given, "a Salve", "Salves"));
        }
        let ghost first = lines(texts@);
        if xsalves_given > 0 {
            say(&mut texts, make_got_items(xsalves_given, "an XSalve", "XSalves"));
        }
        let ghost second = lines(texts@);
        if tonics_given > 0 {
            say(&mut texts, make_got_items(tonics_given, "a Tonic", "Tonics"));
        }
        let ghost third = lines(texts@);
        say_by_progress(
            &mut texts,
            &sctx.mctx.progress,
            "Ducille:\nYou can rest in your bed\nto recover and save.",
            "Ducille:\nIf you fall in battle,\nwe'll bring you back home.",
            "Ducille:\nThe spirits were possessed, you say?\nI wonder how that came to be...",
        );
        proof {
            let before = &old(sctx).mctx.progress;
            let stock = ducille_stock(before);
            assert(salves_given == short_of(before.items@, Item::Salve, stock.0));
            assert(xsalves_given == short_of(before.items@, Item::XSalve, stock.1));
            assert(tonics_given == short_of(before.items@, Item::Tonic, stock.2));
            assert(lesson =~= if before.magic@[0].known {
                Seq::<Seq<char>>::empty()
            } else {
                seq![
                    "Ducille:\nIt's dangerous out there;\nI can teach you some magic."@,
                    "Coric learned "@ + Magic::Heal.spec_name() + "!"@,
                    "Ducille:\nDon't hesitate to use it\nif you get low on health."@,
                ]
            });
            assert(word =~= lesson + if_given(
                salves_given > 0 || xsalves_given > 0 || tonics_given > 0,
                "Ducille:\nYou need items, Coric?\nLet's see what I can find..."@,
            ));
            assert(first =~= word + if_given(
                salves_given > 0,
                got_items(salves_given, "a Salve"@, "Salves"@),
            ));
            assert(second =~= first + if_given(
                xsalves_given > 0,
                got_items(xsalves_given, "an XSalve"@, "XSalves"@),
            ));
            assert(third =~= second + if_given(
                tonics_given > 0,
                got_items(tonics_given, "a Tonic"@, "Tonics"@),
            ));
            assert(lines(texts@) =~= ducille_texts(before));
            assert(ducille_gives(&sctx.mctx.progress, before));
        }
        texts
    }

    /// What Matero has to say and to give: the first sword and the first armor.
    fn matero(&mut self, sctx: &mut ScriptContext) -> (texts: Vec<String>)
        requires
            old(sctx).wf(),
        ensures
            final(sctx).wf(),
            final(sctx).modes == old(sctx).modes,
            final(sctx).mctx.actors == old(sctx).mctx.actors,
            *final(self) == *old(self),
            *final(sctx) == (ScriptContext {
                mctx: ModeContext { progress: final(sctx).mctx.progress, ..old(sctx).mctx },
                ..*old(sctx)
            }),
            matero_gives(&final(sctx).mctx.progress, &old(sctx).mctx.progress),
            lines(texts@) == matero_texts(&old(sctx).mctx.progress),
    {
        let mut texts: Vec<String> = Vec::new();
        let ghost none = lines(texts@);
        assert(none =~= Seq::<Seq<char>>::empty());
        let weapon_given = sctx.mctx.progress.maybe_upgrade_weapon("Short Sword", 2);
        let armor_given = sctx.mctx.progress.maybe_upgrade_armor("Leather Armor", 2);
        if weapon_given || armor_given {
            say(&mut texts, text("Matero:\nGoing on a quest?\nI have some gear you can use."));
        }
        let ghost word = lines(texts@);
        if weapon_given {
            say(&mut texts, text("Coric got a Short Sword!"));
        }
        let ghost weapon = lines(texts@);
        if armor_given {
            say(&mut texts, text("Coric got a Leather Armor!"));
        }
        let ghost armor = lines(texts@);
        say_by_progress(
            &mut texts,
            &sctx.mctx.progress,
            "Matero:\nIf you use magic on a foe, you can\nfollow up next turn for more damage.",
            "Matero:\nRumor has it that each castle has\na weapon and an armor to find.",
            "Matero:\nIf spikes block your path, you can\npull a lever to retract them.",
        );
        proof {
            let before = &old(sctx).mctx.progress;
            assert(word =~= if_given(
                weapon_given || armor_given,
                "Matero:\nGoing on a quest?\nI have some gear you can use."@,
            ));
            assert(weapon =~= word + if_given(weapon_given, "Coric got a Short Sword!"@));
            assert(armor =~= weapon + if_given(armor_given, "Coric got a Leather Armor!"@));
            assert(lines(texts@) =~= matero_texts(before));
        }
        texts
    }

    /// What one of the people of the town who only talk has to say.
    fn townsfolk(sctx: &ScriptContext, kind: ActorType) -> (texts: Vec<String>)
        ensures
            texts@.len() <= 1,
            lines(texts@) == townsfolk_texts(&sctx.mctx.progress, kind),
    {
        let mut texts: Vec<String> = Vec::new();
        assert(lines(texts@) =~= Seq::<Seq<char>>::empty());
        let words = if kind == ActorType::Jace {
            by_progress(
                &sctx.mctx.progress,
                "Jace:\nThe spirits reside in three castles.\nThe Earth Castle lies to the east.",
                "Jace:\nHead to the Water Castle, across\nthe lakes and forests to the west.",
                "Jace:\nAcross the chasms and cliffs\nto the north lies the Fire Castle.",
            )
        } else {
            by_progress(
                &sctx.mctx.progress,
                "Julis:\nTalk to us when you make progress;\nwe'll have more to tell you.",
                "Julis:\nDucille tends to the apocathery;\nJace knows the lay of the land.",
                "Julis:\nWe have records of vampires\nbested by water.",
            )
        };
        match words {
            Some(words) => {
                say(&mut texts, text(words));
            },
            None => {},
        }
        assert(lines(texts@) =~= townsfolk_texts(&sctx.mctx.progress, kind));
        texts
    }

    /// The magic that a chest of a kind holds, if it holds magic.
    pub open spec fn chest_magic(chest: ChestType) -> Option<Magic> {
        match chest {
            ChestType::FireEdge => Some(Magic::FireEdge),
            ChestType::EarthEdge => Some(Magic::EarthEdge),
            ChestType::WaterEdge => Some(Magic::WaterEdge),
            _ => None,
        }
    }

    /// What a chest of a kind holds where it holds no magic: the name
    /// of the thing, what it adds to attack or defense, and whether it is
    /// a weapon.
    pub open spec fn chest_gear(chest: ChestType) -> (Seq<char>, i32, bool) {
        match chest {
            ChestType::LongSword => ("Long Sword"@, 7, true),
            ChestType::ChainVest => ("Chain Vest"@, 7, false),
            ChestType::DuelistSword => ("Duelist Sword"@, 13, true),
            ChestType::SteelArmor => ("Steel Armor"@, 13, false),
            ChestType::ValorBlade => ("Valor Blade"@, 25, true),
            _ => ("Mythic Plate"@, 25, false),
        }
    }

    /// The player is better off with the thing that the chest holds.
    pub open spec fn gear_wanted(progress: &crate::progress::Progress, chest: ChestType) -> bool {
        let gear = Script::chest_gear(chest);
        gear.1 > if gear.2 {
            progress.weapon_attack()
        } else {
            progress.armor_defense()
        }
    }

    /// What the player has once the thing that the chest holds is taken
    /// or left: magic is learned; a weapon or an armor is taken where the
    /// player is better off with it, and attack or defense rises by the
    /// difference.
    pub open spec fn chest_given(
        after: &crate::progress::Progress,
        before: &crate::progress::Progress,
        chest: ChestType,
    ) -> bool {
        let gear = Script::chest_gear(chest);
        match Script::chest_magic(chest) {
            Some(magic) => *after == (crate::progress::Progress { magic: after.magic, ..*before })
                && after.magic@ == before.magic@.update(
                crate::progress::magic_slot_index(magic),
                crate::progress::MagicSlot { magic, known: true },
            ),
            None => if !Script::gear_wanted(before, chest) {
                *after == *before
            } else if gear.2 {
                &&& *after == (crate::progress::Progress {
                    attack: after.attack,
                    weapon: after.weapon,
                    ..*before
                })
                &&& after.weapon matches Some(w) && w.name@ == gear.0 && w.attack == gear.1
                &&& after.attack == clamp_i32(before.attack + (gear.1 - before.weapon_attack()))
            } else {
                &&& *after == (crate::progress::Progress {
                    defense: after.defense,
                    armor: after.armor,
                    ..*before
                })
                &&& after.armor matches Some(a) && a.name@ == gear.0 && a.defense == gear.1
                &&& after.defense == clamp_i32(before.defense + (gear.1 - before.armor_defense()))
            },
        }
    }

    /// What is said about a chest that was opened.
    pub open spec fn chest_text(progress: &crate::progress::Progress, chest: ChestType) -> Seq<char> {
        match Script::chest_magic(chest) {
            Some(magic) => "Coric learned "@ + magic.spec_name() + "!"@,
            None => if Script::gear_wanted(progress, chest) {
                "Coric found the "@ + Script::chest_gear(chest).0 + "!"@
            } else {
                "Coric found the "@ + Script::chest_gear(chest).0 + ", but\ndoesn't need it."@
            },
        }
    }

    /// The chest was opened: it stands open, the player has what it
    /// gave, and the text about it is put up. A chest whose content the
    /// player left closes again once the text is read, and any other
    /// counts as opened from then on.
    pub open spec fn chest_opened(
        &self,
        story: &Script,
        sctx: &ScriptContext,
        before: &ScriptContext,
        actor: int,
        chest: ChestType,
        r: Poll<Result<(), ScriptError>>,
    ) -> bool {
        self.chest_shown(
            story,
            sctx,
            before,
            actor,
            chest,
            if Script::chest_magic(chest) is Some || Script::gear_wanted(
                &before.mctx.progress,
                chest,
            ) {
                AfterTexts::ChestTaken
            } else {
                AfterTexts::ChestRefused { actor: actor as usize }
            },
            r,
        )
    }

    /// The chest stands open, the player has what it gave, and the text
    /// about it is put up, to be followed by `next`.
    pub open spec fn chest_shown(
        &self,
        story: &Script,
        sctx: &ScriptContext,
        before: &ScriptContext,
        actor: int,
        chest: ChestType,
        next: AfterTexts,
        r: Poll<Result<(), ScriptError>>,
    ) -> bool {
        let actors = before.mctx.actors@;
        let progress = &before.mctx.progress;
        exists|noted: ScriptContext, texts: Vec<String>|
            {
                &&& #[trigger] self.row_shown(story, sctx, &noted, texts, next, r)
                &&& noted == (ScriptContext {
                    mctx: ModeContext {
                        actors: noted.mctx.actors,
                        progress: noted.mctx.progress,
                        ..before.mctx
                    },
                    ..*before
                })
                &&& noted.mctx.actors@.len() == actors.len()
                &&& forall|i: int|
                    0 <= i < actors.len() && i != actor ==> #[trigger] noted.mctx.actors@[i]
                        == actors[i]
                &&& noted.mctx.actors@[actor].same_but_playback(&actors[actor])
                &&& noted.mctx.actors@[actor].sprite().playback() == actors[actor].sprite().start_at(
                    actors[actor].sprite().playback(),
                    "open"@,
                )
                &&& Script::chest_given(&noted.mctx.progress, progress, chest)
                &&& lines(texts@) == seq![Script::chest_text(progress, chest)]
            }
    }

    /// The player opens a chest: magic is learned, and a weapon or an
    /// armor is taken where it is better than what the player has.
    fn open_chest(&mut self, sctx: &mut ScriptContext, actor: usize, chest_type: ChestType) -> (r:
        Poll<Result<(), ScriptError>>)
        requires
            old(sctx).wf(),
            old(sctx).modes@.len() == 1,
            Script::base_parked(old(sctx)),
            Script::at_rest(old(sctx)),
            0 < actor < old(sctx).mctx.actors@.len(),
        ensures
            final(self).polls == old(self).polls,
            final(self).holds(final(sctx)),
            (r is Ready) == (final(self).state == ScriptState::Finished),
            !(r matches Poll::Ready(Ok(_))),
            r is Pending,
            final(self).chest_opened(old(self), final(sctx), old(sctx), actor as int, chest_type, r),
    {
        let _ = sctx.mctx.actors[actor].start_animation("open");
        proof {
            lemma_actor_changed(sctx.mctx.actors@, old(sctx).mctx.actors@, actor as int);
        }
        let magic = match chest_type {
            ChestType::FireEdge => Some(Magic::FireEdge),
            ChestType::EarthEdge => Some(Magic::EarthEdge),
            ChestType::WaterEdge => Some(Magic::WaterEdge),
            _ => None,
        };
        let mut texts: Vec<String> = Vec::new();
        match magic {
            Some(magic) => {
                learn(&mut sctx.mctx.progress, magic);
                texts.push(make_learned_text(magic));
                let ghost noted = *sctx;
                let ghost shown = texts;
                let r = self.show_texts(sctx, texts, AfterTexts::ChestTaken);
                proof {
                    assert(lines(shown@) =~= seq![
                        Script::chest_text(&old(sctx).mctx.progress, chest_type),
                    ]);
                    assert(self.row_shown(old(self), sctx, &noted, shown, AfterTexts::ChestTaken, r));
                    assert(self.chest_shown(
                        old(self),
                        sctx,
                        old(sctx),
                        actor as int,
                        chest_type,
                        AfterTexts::ChestTaken,
                        r,
                    ));
                }
                r
            },
            None => {
                let (name, value, weapon): (&'static str, i32, bool) = match chest_type {
                    ChestType::LongSword => ("Long Sword", 7, true),
                    ChestType::ChainVest => ("Chain Vest", 7, false),
                    ChestType::DuelistSword => ("Duelist Sword", 13, true),
                    ChestType::SteelArmor => ("Steel Armor", 13, false),
                    ChestType::ValorBlade => ("Valor Blade", 25, true),
                    _ => ("Mythic Plate", 25, false),
                };
                let taken = if weapon {
                    sctx.mctx.progress.maybe_upgrade_weapon(name, value)
                } else {
                    sctx.mctx.progress.maybe_upgrade_armor(name, value)
                };
                let ghost noted = *sctx;
                if taken {
                    texts.push(join3("Coric found the ", name, "!"));
                    let ghost shown = texts;
                    let r = self.show_texts(sctx, texts, AfterTexts::ChestTaken);
                    proof {
                        assert(lines(shown@) =~= seq![
                            Script::chest_text(&old(sctx).mctx.progress, chest_type),
                        ]);
                        assert(self.row_shown(
                            old(self),
                            sctx,
                            &noted,
                            shown,
                            AfterTexts::ChestTaken,
                            r,
                        ));
                    }
                    r
                } else {
                    texts.push(join3("Coric found the ", name, ", but\ndoesn't need it."));
                    let ghost shown = texts;
                    let r = self.show_texts(sctx, texts, AfterTexts::ChestRefused { actor });
                    proof {
                        assert(lines(shown@) =~= seq![
                            Script::chest_text(&old(sctx).mctx.progress, chest_type),
                        ]);
                        assert(self.row_shown(
                            old(self),
                            sctx,
                            &noted,
                            shown,
                            AfterTexts::ChestRefused { actor },
                            r,
                        ));
                    }
                    r
                }
            },
        }
    }

    /// What talking to an actor leads to, where it is no fault. In the
    /// town Ducille and Matero give what they have to give and say what
    /// they have to say, and the others say their words. A spirit in
    /// its own level challenges the player. A chest that was opened
    /// before is left alone, and any other is opened. The player turns a
    /// lever after the word about it. The bed makes the screen fade to
    /// black.
    pub open spec fn talk_followed(
        &self,
        story: &Script,
        sctx: &ScriptContext,
        before: &ScriptContext,
        actor: int,
        r: Poll<Result<(), ScriptError>>,
    ) -> bool {
        let actors = before.mctx.actors@;
        let name = before.mctx.level.identifier@;
        let progress = &before.mctx.progress;
        let kind = actors[actor].identifier;
        let in_town = name == "Start"@;
        if actor <= 0 || actor >= actors.len() {
            true
        } else if in_town && kind == ActorType::Bed {
            exists|dark: ScriptContext| #[trigger]
                dark.fading_out(before, 60) && self.fade_run(
                    story,
                    sctx,
                    &dark,
                    AfterFade::BedWake,
                    r,
                )
        } else if in_town && (kind == ActorType::Ducille || kind == ActorType::Matero) {
            exists|noted: ScriptContext, texts: Vec<String>|
                {
                    &&& #[trigger] self.row_shown(story, sctx, &noted, texts, AfterTexts::Roam, r)
                    &&& noted == (ScriptContext {
                        mctx: ModeContext { progress: noted.mctx.progress, ..before.mctx },
                        ..*before
                    })
                    &&& if kind == ActorType::Ducille {
                        ducille_gives(&noted.mctx.progress, progress) && lines(texts@)
                            == ducille_texts(progress)
                    } else {
                        matero_gives(&noted.mctx.progress, progress) && lines(texts@)
                            == matero_texts(progress)
                    }
                }
        } else if in_town && (kind == ActorType::Jace || kind == ActorType::Julis) {
            exists|texts: Vec<String>| #[trigger]
                self.row_shown(story, sctx, before, texts, AfterTexts::Roam, r) && lines(texts@)
                    == townsfolk_texts(progress, kind)
        } else if Script::boss_of(kind) is Some && name == Script::boss_of(
            kind,
        )->0.spec_level_name() {
            let boss = Script::boss_of(kind)->0;
            exists|texts: Vec<String>| #[trigger]
                self.row_shown(story, sctx, before, texts, AfterTexts::BossBattle { boss }, r)
                    && lines(texts@) == seq![boss.spec_challenge()]
        } else if kind == ActorType::Chest {
            if crate::contexts::name_listed(progress.collected_chests@, name) {
                *self == (Script { state: ScriptState::Roaming, ..*story }) && Script::top_waits(
                    sctx,
                    before,
                )
            } else {
                actors[actor].chest_type matches Some(chest) ==> self.chest_opened(
                    story,
                    sctx,
                    before,
                    actor,
                    chest,
                    r,
                )
            }
        } else if kind == ActorType::Lever {
            exists|texts: Vec<String>| #[trigger]
                self.row_shown(story, sctx, before, texts, AfterTexts::Lever, r) && lines(texts@)
                    == seq![
                    if before.lever_turned() {
                        "Coric turns the lever to the left."@
                    } else {
                        "Coric turns the lever to the right."@
                    },
                ]
        } else {
            true
        }
    }

    /// The player talks to an actor.
    fn talk(&mut self, sctx: &mut ScriptContext, actor: usize) -> (r: Poll<
        Result<(), ScriptError>,
    >)
        requires
            old(sctx).wf(),
            old(sctx).modes@.len() == 1,
            Script::base_parked(old(sctx)),
            Script::at_rest(old(sctx)),
        ensures
            final(self).polls == old(self).polls,
            final(self).holds(final(sctx)),
            (r is Ready) == (final(self).state == ScriptState::Finished),
            !(r matches Poll::Ready(Ok(_))),
            Script::ends(r, Script::talk_fault(old(sctx), actor as int)),
            final(self).talk_followed(old(self), final(sctx), old(sctx), actor as int, r),
    {
        if actor == 0 || actor >= sctx.mctx.actors.len() {
            return self.fail(ScriptError::MissingActor);
        }
        let kind = sctx.mctx.actors[actor].identifier;
        let in_town = crate::strings::str_eq(sctx.mctx.level.identifier.as_str(), "Start");
        if in_town && kind == ActorType::Bed {
            sctx.fade_out(60);
            let ghost dark = *sctx;
            let r = self.fade_then(sctx, AfterFade::BedWake);
            proof {
                assert(dark.fading_out(old(sctx), 60));
            }
            return r;
        }
        if in_town && kind == ActorType::Ducille {
            let texts = self.ducille(sctx);
            let ghost noted = *sctx;
            let ghost shown = texts;
            let r = self.show_texts(sctx, texts, AfterTexts::Roam);
            proof {
                assert(self.row_shown(old(self), sctx, &noted, shown, AfterTexts::Roam, r));
            }
            return r;
        }
        if in_town && kind == ActorType::Matero {
            let texts = self.matero(sctx);
            let ghost noted = *sctx;
            let ghost shown = texts;
            let r = self.show_texts(sctx, texts, AfterTexts::Roam);
            proof {
                assert(self.row_shown(old(self), sctx, &noted, shown, AfterTexts::Roam, r));
            }
            return r;
        }
        if in_town && (kind == ActorType::Jace || kind == ActorType::Julis) {
            let texts = Script::townsfolk(sctx, kind);
            let ghost shown = texts;
            let r = self.show_texts(sctx, texts, AfterTexts::Roam);
            proof {
                assert(self.row_shown(old(self), sctx, old(sctx), shown, AfterTexts::Roam, r));
            }
            return r;
        }
        let boss = if kind == ActorType::Earth {
            Some(Boss::Earth)
        } else if kind == ActorType::Water {
            Some(Boss::Water)
        } else if kind == ActorType::Fire {
            Some(Boss::Fire)
        } else {
            None
        };
        match boss {
            Some(boss) => {
                if crate::strings::str_eq(sctx.mctx.level.identifier.as_str(), boss.level_name()) {
                    let mut texts: Vec<String> = Vec::new();
                    texts.push(text(boss.challenge()));
                    let ghost shown = texts;
                    let r = self.show_texts(sctx, texts, AfterTexts::BossBattle { boss });
                    proof {
                        assert(lines(shown@) =~= seq![boss.spec_challenge()]);
                        assert(self.row_shown(
                            old(self),
                            sctx,
                            old(sctx),
                            shown,
                            AfterTexts::BossBattle { boss },
                            r,
                        ));
                    }
                    return r;
                }
            },
            None => {},
        }
        if kind == ActorType::Chest {
            if sctx.mctx.progress.collected_chests.len() > 0 && position_of(
                &sctx.mctx.progress.collected_chests,
                sctx.mctx.level.identifier.as_str(),
            ).is_some() {
                return self.roam(sctx);
            }
            match sctx.mctx.actors[actor].chest_type {
                Some(chest_type) => self.open_chest(sctx, actor, chest_type),
                None => self.fail(ScriptError::MissingChestType),
            }
        } else if kind == ActorType::Lever {
            let mut texts: Vec<String> = Vec::new();
            if sctx.lever_is_turned() {
                texts.push(text("Coric turns the lever to the left."));
            } else {
                texts.push(text("Coric turns the lever to the right."));
            }
            let ghost shown = texts;
            let r = self.show_texts(sctx, texts, AfterTexts::Lever);
            proof {
                assert(lines(shown@) =~= seq![
                    if old(sctx).lever_turned() {
                        "Coric turns the lever to the left."@
                    } else {
                        "Coric turns the lever to the right."@
                    },
                ]);
                assert(self.row_shown(old(self), sctx, old(sctx), shown, AfterTexts::Lever, r));
            }
            r
        } else {
            self.fail(ScriptError::MissingTalkScript)
        }
    }

    /// What a step over the edge of the level leads to. Where no level
    /// lies that way, the player stops walking and moves freely, which
    /// made one update. Where a level lies there and can be made, it is
    /// kept ready with its actors, and the player sets off on the way
    /// out: it made the first step, and black is laid over the cleared
    /// screen as far as the way is walked. A fault changes nothing.
    pub open spec fn edge_followed(
        &self,
        story: &Script,
        sctx: &ScriptContext,
        before: &ScriptContext,
        dir: Direction,
        r: Poll<Result<(), ScriptError>>,
    ) -> bool {
        let actors = before.mctx.actors@;
        let set_off = actors.update(0, actors[0].set_off(dir));
        match before.levels.neighbour_index(
            before.mctx.level.neighbours@,
            before.player_world_x(),
            before.player_world_y(),
            dir,
        ) {
            Ok(None) => {
                &&& *self == (Script { state: ScriptState::Roaming, ..*story })
                &&& exists|stopped: ScriptContext|
                    {
                        &&& #[trigger] Script::top_waits(sctx, &stopped)
                        &&& stopped == (ScriptContext {
                            mctx: ModeContext { actors: stopped.mctx.actors, ..before.mctx },
                            ..*before
                        })
                        &&& stopped.mctx.actors@.len() == actors.len()
                        &&& forall|i: int|
                            0 < i < actors.len() ==> #[trigger] stopped.mctx.actors@[i] == actors[i]
                        &&& stopped.mctx.actors@[0].same_but_playback(&actors[0])
                        &&& stopped.mctx.actors@[0].sprite().playback()
                            == actors[0].sprite().stop_at(actors[0].sprite().playback())
                    }
            },
            Ok(Some(index)) => if r is Pending {
                &&& *self == (Script {
                    state: ScriptState::WalkingOut { dir },
                    pending_level: self.pending_level,
                    pending_actors: self.pending_actors,
                    ..*story
                })
                &&& self.pending_level matches Some(level) && level.identifier@
                    == before.levels.levels@[index].level.identifier@ && before.made_of(
                    &level,
                    self.pending_actors@,
                    &before.levels.levels@[index],
                )
                &&& *sctx == (ScriptContext {
                    mctx: ModeContext {
                        actors: sctx.mctx.actors,
                        fade: sctx.mctx.fade,
                        ..before.mctx
                    },
                    ..*before
                })
                &&& walk_step(set_off, sctx.mctx.actors@, Poll::Pending) || walk_step(
                    set_off,
                    sctx.mctx.actors@,
                    Poll::Ready(()),
                )
                &&& sctx.mctx.fade.recolored(
                    &before.mctx.fade,
                    seq![0i32, 0i32, 0i32, 0i32].update(3, walk_fade(&sctx.mctx.actors@[0], true)),
                )
            } else {
                *sctx == *before
            },
            Err(_) => *sctx == *before,
        }
    }

    /// The player steps over the edge of the level: where a level lies
    /// that way, the player walks out of this one while the screen fades
    /// to black.
    fn leave_level(&mut self, sctx: &mut ScriptContext, dir: Direction) -> (r: Poll<
        Result<(), ScriptError>,
    >)
        requires
            old(sctx).wf(),
            old(sctx).modes@.len() == 1,
            Script::base_parked(old(sctx)),
            Script::at_rest(old(sctx)),
        ensures
            final(self).polls == old(self).polls,
            final(self).holds(final(sctx)),
            (r is Ready) == (final(self).state == ScriptState::Finished),
            !(r matches Poll::Ready(Ok(_))),
            Script::ends(r, Script::leave_fault(old(sctx), dir)),
            r is Pending ==> final(self).state == Script::state_after_edge(old(sctx), dir),
            final(self).edge_followed(old(self), final(sctx), old(sctx), dir, r),
    {
        match sctx.level_by_neighbour(dir) {
            Err(e) => self.fail(ScriptError::Level(e)),
            Ok(None) => {
                let _ = sctx.mctx.actors[0].stop_walk_animation();
                proof {
                    assert forall|i: int| 0 <= i < sctx.mctx.actors@.len() implies (
                    #[trigger] sctx.mctx.actors@[i]).wf() by {
                        if i > 0 {
                            assert(sctx.mctx.actors@[i] == old(sctx).mctx.actors@[i]);
                        }
                    }
                }
                let ghost stopped = *sctx;
                let r = self.roam(sctx);
                proof {
                    assert(Script::top_waits(sctx, &stopped));
                }
                r
            },
            Ok(Some((level, actors))) => {
                sctx.mctx.fade.set([0, 0, 0, 0]);
                self.pending_level = Some(level);
                self.pending_actors = actors;
                let mut started = false;
                let _ = walk_player(&mut sctx.mctx.actors, dir, &mut started);
                Script::fade_with_walk(sctx, true);
                self.state = ScriptState::WalkingOut { dir };
                proof {
                    assert([0i32, 0i32, 0i32, 0i32]@ =~= seq![0i32, 0i32, 0i32, 0i32]);
                }
                Poll::Pending
            },
        }
    }

    /// Lays black over the screen as far as the player has walked out of
    /// the level, or has yet to walk into it.
    fn fade_with_walk(sctx: &mut ScriptContext, out: bool)
        requires
            old(sctx).mctx.actors@.len() > 0,
        ensures
            *final(sctx) == (ScriptContext {
                mctx: crate::contexts::ModeContext { fade: final(sctx).mctx.fade, ..old(sctx).mctx },
                ..*old(sctx)
            }),
            final(sctx).mctx.fade.color() == old(sctx).mctx.fade.color().update(
                3,
                walk_fade(&old(sctx).mctx.actors@[0], out),
            ),
            final(sctx).mctx.fade.recolored(
                &old(sctx).mctx.fade,
                old(sctx).mctx.fade.color().update(3, walk_fade(&old(sctx).mctx.actors@[0], out)),
            ),
    {
        let x = sctx.mctx.actors[0].offset_x as i64;
        let y = sctx.mctx.actors[0].offset_y as i64;
        let x = if x < 0 {
            -x
        } else {
            x
        };
        let y = if y < 0 {
            -y
        } else {
            y
        };
        let left = if x > y {
            x
        } else {
            y
        };
        let left = if left > 16 {
            16
        } else {
            left
        };
        let covered = 16 - left;
        let alpha = if out {
            covered * 1000 / 16
        } else {
            left * 1000 / 16
        };
        let color = sctx.mctx.fade.get();
        sctx.mctx.fade.set([color[0], color[1], color[2], alpha as i32]);
        assert(sctx.mctx.fade.color() =~= old(sctx).mctx.fade.color().update(
            3,
            walk_fade(&old(sctx).mctx.actors@[0], out),
        ));
    }

    /// One tick of walking out of a level. Once the player is out the
    /// next level takes the place of this one, and the player walks in.
    fn walk_out(&mut self, sctx: &mut ScriptContext, dir: Direction) -> (r: Poll<
        Result<(), ScriptError>,
    >)
        requires
            old(self).holds(old(sctx)),
            old(self).state == (ScriptState::WalkingOut { dir }),
        ensures
            final(self).polls == old(self).polls,
            final(self).holds(final(sctx)),
            (r is Ready) == (final(self).state == ScriptState::Finished),
            !(r matches Poll::Ready(Ok(_))),
            Script::at_rest(old(sctx)) ==> final(self).walked_out(
                old(self),
                final(sctx),
                old(sctx),
                dir,
                r,
            ),
            !Script::at_rest(old(sctx)) ==> Script::walking(
                final(self),
                old(self),
                final(sctx),
                old(sctx),
                r,
            ),
    {
        let mut started = true;
        match walk_player(&mut sctx.mctx.actors, dir, &mut started) {
            Poll::Pending => {
                Script::fade_with_walk(sctx, true);
                Poll::Pending
            },
            Poll::Ready(_) => {
                let mut level: Option<Level> = None;
                core::mem::swap(&mut self.pending_level, &mut level);
                let mut actors: Vec<Actor> = Vec::new();
                core::mem::swap(&mut self.pending_actors, &mut actors);
                let level = match level {
                    Some(level) => level,
                    None => {
                        return self.fail(ScriptError::Level(LevelError::UnknownLevel));
                    },
                };
                let shift_x = divide_towards_zero(
                    sctx.mctx.level.px_world_x as i64 - level.px_world_x as i64,
                    16,
                ) - dir.dx() as i64;
                let shift_y = divide_towards_zero(
                    sctx.mctx.level.px_world_y as i64 - level.px_world_y as i64,
                    16,
                ) - dir.dy() as i64;
                sctx.mctx.actors[0].grid_x = clamp_to_i32(
                    sctx.mctx.actors[0].grid_x as i64 + shift_x,
                );
                sctx.mctx.actors[0].grid_y = clamp_to_i32(
                    sctx.mctx.actors[0].grid_y as i64 + shift_y,
                );
                proof {
                    assert forall|i: int| 0 <= i < sctx.mctx.actors@.len() implies (
                    #[trigger] sctx.mctx.actors@[i]).wf() by {
                        if i > 0 {
                            assert(sctx.mctx.actors@[i] == old(sctx).mctx.actors@[i]);
                        }
                    }
                }
                Script::enter_level(sctx, level, actors);
                match Script::run_level_on_enter(sctx) {
                    Err(e) => {
                        return self.fail(e);
                    },
                    Ok(()) => {},
                }
                let ghost there = *sctx;
                let mut started = false;
                match walk_player(&mut sctx.mctx.actors, dir, &mut started) {
                    Poll::Pending => {
                        Script::fade_with_walk(sctx, false);
                        self.state = ScriptState::WalkingIn { dir };
                        proof {
                            assert(Script::set_off_inwards(sctx, &there, dir));
                            assert(self.walk_in_begun(old(self), sctx, &there, dir));
                        }
                        Poll::Pending
                    },
                    Poll::Ready(_) => {
                        Script::fade_with_walk(sctx, false);
                        let ghost moved = *sctx;
                        let r = self.roam(sctx);
                        proof {
                            assert(Script::set_off_inwards(&moved, &there, dir));
                            assert(Script::top_waits(sctx, &moved));
                            assert(self.walk_in_begun(old(self), sctx, &there, dir));
                        }
                        r
                    },
                }
            },
        }
    }

    /// The player has come to rest in the level that it walked into:
    /// black is laid over the screen as far as the way in was left to
    /// walk, and the player moves freely, which made one update.
    pub open spec fn walked_in(
        &self,
        before: &Script,
        sctx: &ScriptContext,
        sctx_before: &ScriptContext,
    ) -> bool {
        &&& *self == (Script { state: ScriptState::Roaming, ..*before })
        &&& exists|faded: ScriptContext|
            {
                &&& #[trigger] Script::top_waits(sctx, &faded)
                &&& faded == (ScriptContext {
                    mctx: ModeContext {
                        fade: faded.mctx.fade,
                        actors: faded.mctx.actors,
                        ..sctx_before.mctx
                    },
                    ..*sctx_before
                })
                &&& faded.mctx.actors@ == sctx_before.mctx.actors@
                &&& faded.mctx.fade.recolored(
                    &sctx_before.mctx.fade,
                    sctx_before.mctx.fade.color().update(
                        3,
                        walk_fade(&sctx_before.mctx.actors@[0], false),
                    ),
                )
            }
    }

    /// One tick of walking into a level.
    fn walk_in(&mut self, sctx: &mut ScriptContext, dir: Direction) -> (r: Poll<
        Result<(), ScriptError>,
    >)
        requires
            old(self).holds(old(sctx)),
            old(self).state == (ScriptState::WalkingIn { dir }),
        ensures
            final(self).polls == old(self).polls,
            final(self).holds(final(sctx)),
            (r is Ready) == (final(self).state == ScriptState::Finished),
            !(r matches Poll::Ready(Ok(_))),
            Script::at_rest(old(sctx)) ==> r is Pending && final(self).state
                == ScriptState::Roaming && final(self).walked_in(old(self), final(sctx), old(sctx)),
            !Script::at_rest(old(sctx)) ==> Script::walking(
                final(self),
                old(self),
                final(sctx),
                old(sctx),
                r,
            ),
    {
        let mut started = true;
        match walk_player(&mut sctx.mctx.actors, dir, &mut started) {
            Poll::Pending => {
                Script::fade_with_walk(sctx, false);
                Poll::Pending
            },
            Poll::Ready(_) => {
                Script::fade_with_walk(sctx, false);
                let ghost faded = *sctx;
                let r = self.roam(sctx);
                proof {
                    assert(Script::top_waits(sctx, &faded));
                    assert(faded.mctx.actors@ == old(sctx).mctx.actors@);
                }
                r
            },
        }
    }

    /// A menu of the given kind was put on the stack as it is made, above
    /// what lay there, and made its first update.
    pub open spec fn menu_opened(sctx: &ScriptContext, before: &ScriptContext, kind: ModeKind) -> bool {
        exists|pushed: ScriptContext|
            {
                &&& #[trigger] Script::top_waits(sctx, &pushed)
                &&& pushed == (ScriptContext { modes: pushed.modes, ..*before })
                &&& pushed.modes@.len() == before.modes@.len() + 1
                &&& pushed.modes@.drop_last() == before.modes@
                &&& match pushed.modes@.last() {
                    Mode::DebugMenu(m) => kind == ModeKind::DebugMenu && m.phase
                        == crate::modes::debug_menu::DebugMenuPhase::Start && m.window.placed(
                        &before.mctx.res.window_textures,
                        83,
                        36,
                        154,
                        104,
                    ) && m.text.written(&before.mctx.res.font, 97, 44, Seq::empty())
                        && m.cursor.written(
                        &before.mctx.res.font,
                        crate::modes::debug_menu::CURSOR_X,
                        crate::modes::debug_menu::CURSOR_Y,
                        seq![crate::text::CURSOR_CHAR],
                    ),
                    Mode::MainMenu(m) => kind == ModeKind::MainMenu && m.fresh(
                        &before.mctx.res,
                        &before.mctx.progress,
                    ),
                    _ => false,
                }
            }
    }

    /// What follows an event of free movement: the tick ends with the
    /// fault of the event where it has one and goes on where it has none.
    /// A request for a menu opens that menu, and the player talks to
    /// the actor that an event names. An encounter begins a
    /// battle against an enemy that is drawn from those that live in the
    /// level; where none live there, it is dealt with as a battle that
    /// the player left. A step over the edge leads out where a level
    /// lies that way.
    pub open spec fn walk_followed(
        &self,
        story: &Script,
        sctx: &ScriptContext,
        before: &ScriptContext,
        event: WalkAroundEvent,
        r: Poll<Result<(), ScriptError>>,
    ) -> bool {
        &&& Script::ends(r, Script::walk_fault(before, event))
        &&& event is TalkActor ==> self.talk_followed(
            story,
            sctx,
            before,
            event->TalkActor_0 as int,
            r,
        )
        &&& event is Encounter ==> match before.mctx.level.encounters {
            Some(group) => self.group_met(story, sctx, before, group, AfterBattle::Encounter, r),
            None => self.battle_settled(story, sctx, before, false, AfterBattle::Encounter),
        }
        &&& event is Encounter && r is Pending ==> self.state == if before.mctx.level.encounters
            is Some {
            ScriptState::InBattle { next: AfterBattle::Encounter }
        } else {
            ScriptState::Roaming
        }
        &&& event is TouchLevelEdge && r is Pending ==> self.state == Script::state_after_edge(
            before,
            event->TouchLevelEdge_0,
        )
        &&& event is TouchLevelEdge ==> self.edge_followed(
            story,
            sctx,
            before,
            event->TouchLevelEdge_0,
            r,
        )
        &&& event is DebugMenu ==> self.state == ScriptState::InDebugMenu && Script::menu_opened(
            sctx,
            before,
            ModeKind::DebugMenu,
        )
        &&& event is MainMenu ==> self.state == ScriptState::InMainMenu && Script::menu_opened(
            sctx,
            before,
            ModeKind::MainMenu,
        )
    }

    /// What follows an event of free movement.
    fn on_walk_event(&mut self, sctx: &mut ScriptContext, event: WalkAroundEvent) -> (r: Poll<
        Result<(), ScriptError>,
    >)
        requires
            old(sctx).wf(),
            old(sctx).modes@.len() == 1,
            Script::base_parked(old(sctx)),
            Script::at_rest(old(sctx)),
        ensures
            final(self).polls == old(self).polls,
            final(self).holds(final(sctx)),
            (r is Ready) == (final(self).state == ScriptState::Finished),
            !(r matches Poll::Ready(Ok(_))),
            Script::ends(r, Script::walk_fault(old(sctx), event)),
            final(self).walk_followed(old(self), final(sctx), old(sctx), event, r),
    {
        match event {
            WalkAroundEvent::DebugMenu => {
                sctx.push_debug_menu_mode();
                let ghost pushed = *sctx;
                match sctx.modes.update_debug_menu_mode(&mut sctx.mctx) {
                    Poll::Pending => {
                        self.state = ScriptState::InDebugMenu;
                        proof {
                            assert(Script::top_waits(sctx, &pushed));
                            assert(Script::menu_opened(sctx, old(sctx), ModeKind::DebugMenu));
                        }
                        Poll::Pending
                    },
                    Poll::Ready(_) => unreached(),
                }
            },
            WalkAroundEvent::Encounter => {
                match sctx.mctx.level.encounters {
                    Some(group) => {
                        let enemy = group.random_enemy(&mut sctx.mctx.rng);
                        let ghost drawn = *sctx;
                        let r = self.begin_battle(sctx, enemy, false, AfterBattle::Encounter);
                        proof {
                            assert(Script::enemy_drawn(&drawn, old(sctx)));
                        }
                        r
                    },
                    None => self.battle_done(sctx, false, AfterBattle::Encounter),
                }
            },
            WalkAroundEvent::MainMenu => {
                sctx.push_main_menu_mode();
                let ghost pushed = *sctx;
                match sctx.modes.update_main_menu_mode(&mut sctx.mctx) {
                    Poll::Pending => {
                        self.state = ScriptState::InMainMenu;
                        proof {
                            assert(Script::top_waits(sctx, &pushed));
                            assert(Script::menu_opened(sctx, old(sctx), ModeKind::MainMenu));
                        }
                        Poll::Pending
                    },
                    Poll::Ready(_) => unreached(),
                }
            },
            WalkAroundEvent::TalkActor(actor) => self.talk(sctx, actor),
            WalkAroundEvent::TouchLevelEdge(dir) => self.leave_level(sctx, dir),
        }
    }

    /// The debug menu asked for a warp: where the warp has no fault,
    /// the player moves freely where it arrived.
    fn warp_from_menu(&mut self, sctx: &mut ScriptContext, level_id: &'static str, x: i32, y: i32) -> (r:
        Poll<Result<(), ScriptError>>)
        requires
            old(sctx).wf(),
            old(sctx).modes@.len() == 1,
            Script::base_parked(old(sctx)),
            Script::at_rest(old(sctx)),
        ensures
            final(self).polls == old(self).polls,
            final(self).holds(final(sctx)),
            (r is Ready) == (final(self).state == ScriptState::Finished),
            final(self).debug_followed(
                old(self),
                final(sctx),
                old(sctx),
                (DebugMenuEventView::Warp { level_id: level_id@, x, y }),
                r,
            ),
    {
        let warped = self.warp_to_level(sctx, level_id, x, y);
        let ghost there = *sctx;
        match warped {
            Err(e) => {
                let r = self.fail(e);
                proof {
                    assert(Script::warped(&there, old(sctx), level_id@, x, y, Err::<(), ScriptError>(e)));
                }
                r
            },
            Ok(()) => {
                let r = self.roam(sctx);
                proof {
                    assert(Script::warped(
                        &there,
                        old(sctx),
                        level_id@,
                        x,
                        y,
                        Ok::<(), ScriptError>(()),
                    ));
                    assert(Script::top_waits(sctx, &there));
                }
                r
            },
        }
    }

    /// What follows an event of the debug menu.
    fn on_debug_event(&mut self, sctx: &mut ScriptContext, event: DebugMenuEvent) -> (r: Poll<
        Result<(), ScriptError>,
    >)
        requires
            old(sctx).wf(),
            old(sctx).modes@.len() == 1,
            Script::base_parked(old(sctx)),
            Script::at_rest(old(sctx)),
        ensures
            final(self).polls == old(self).polls,
            final(self).holds(final(sctx)),
            (r is Ready) == (final(self).state == ScriptState::Finished),
            final(self).debug_followed(old(self), final(sctx), old(sctx), event@, r),
    {
        let mut texts: Vec<String> = Vec::new();
        match event {
            DebugMenuEvent::Cancel => self.roam(sctx),
            DebugMenuEvent::GainLevel => {
                sctx.mctx.progress.exp = 0;
                sctx.mctx.progress.gain_level();
                texts.push(make_level_text(sctx.mctx.progress.level));
                let ghost noted = *sctx;
                let ghost shown = texts;
                let r = self.show_texts(sctx, texts, AfterTexts::Roam);
                proof {
                    assert(lines(shown@) =~= Script::debug_texts(&noted.mctx.progress, event@));
                    assert(self.row_shown(old(self), sctx, &noted, shown, AfterTexts::Roam, r));
                }
                r
            },
            DebugMenuEvent::Battle(battle) => {
                let group = if battle == 0 {
                    Some(EncounterGroup::Wilderness1)
                } else if battle == 1 {
                    Some(EncounterGroup::Wilderness2)
                } else if battle == 2 {
                    Some(EncounterGroup::Wilderness3)
                } else if battle == 3 {
                    Some(EncounterGroup::EarthCastle)
                } else if battle == 4 {
                    Some(EncounterGroup::WaterCastle)
                } else if battle == 5 {
                    Some(EncounterGroup::FireCastle)
                } else {
                    None
                };
                match group {
                    Some(group) => {
                        let enemy = group.random_enemy(&mut sctx.mctx.rng);
                        let ghost drawn = *sctx;
                        let r = self.begin_battle(sctx, enemy, false, AfterBattle::Roam);
                        proof {
                            assert(Script::enemy_drawn(&drawn, old(sctx)));
                        }
                        r
                    },
                    None => {
                        let boss = if battle == 6 {
                            Boss::Earth
                        } else if battle == 7 {
                            Boss::Water
                        } else if battle == 8 {
                            Boss::Fire
                        } else {
                            return self.fail(ScriptError::InvalidBattle);
                        };
                        self.begin_battle(sctx, boss.enemy(), true, AfterBattle::Roam)
                    },
                }
            },
            DebugMenuEvent::SetWeapon(weapon) => {
                let new_attack: i32 = match &weapon {
                    Some(w) => w.attack,
                    None => 0,
                };
                let old_attack: i32 = match &sctx.mctx.progress.weapon {
                    Some(w) => w.attack,
                    None => 0,
                };
                sctx.mctx.progress.attack = clamp_to_i32(
                    sctx.mctx.progress.attack as i64 + (new_attack as i64 - old_attack as i64),
                );
                sctx.mctx.progress.weapon = weapon;
                let line = match &sctx.mctx.progress.weapon {
                    Some(w) => join3("Coric's weapon is now ", w.name.as_str(), "."),
                    None => join3("Coric's weapon is now ", "(none)", "."),
                };
                texts.push(line);
                let ghost noted = *sctx;
                let ghost shown = texts;
                let r = self.show_texts(sctx, texts, AfterTexts::Roam);
                proof {
                    assert(lines(shown@) =~= Script::debug_texts(&noted.mctx.progress, event@));
                    assert(self.row_shown(old(self), sctx, &noted, shown, AfterTexts::Roam, r));
                }
                r
            },
            DebugMenuEvent::SetArmor(armor) => {
                let new_defense: i32 = match &armor {
                    Some(a) => a.defense,
                    None => 0,
                };
                let old_defense: i32 = match &sctx.mctx.progress.armor {
                    Some(a) => a.defense,
                    None => 0,
                };
                sctx.mctx.progress.defense = clamp_to_i32(
                    sctx.mctx.progress.defense as i64 + (new_defense as i64 - old_defense as i64),
                );
                sctx.mctx.progress.armor = armor;
                let line = match &sctx.mctx.progress.armor {
                    Some(a) => join3("Coric's armor is now ", a.name.as_str(), "."),
                    None => join3("Coric's armor is now ", "(none)", "."),
                };
                texts.push(line);
                let ghost noted = *sctx;
                let ghost shown = texts;
                let r = self.show_texts(sctx, texts, AfterTexts::Roam);
                proof {
                    assert(lines(shown@) =~= Script::debug_texts(&noted.mctx.progress, event@));
                    assert(self.row_shown(old(self), sctx, &noted, shown, AfterTexts::Roam, r));
                }
                r
            },
            DebugMenuEvent::GetItems => {
                proof {
                    sctx.mctx.progress.lemma_item_slots(Item::Salve);
                }
                let _ = sctx.mctx.progress.maybe_give_items(Item::Salve, 2);
                proof {
                    sctx.mctx.progress.lemma_item_slots(Item::XSalve);
                }
                let _ = sctx.mctx.progress.maybe_give_items(Item::XSalve, 2);
                proof {
                    sctx.mctx.progress.lemma_item_slots(Item::Tonic);
                }
                let _ = sctx.mctx.progress.maybe_give_items(Item::Tonic, 2);
                proof {
                    sctx.mctx.progress.lemma_item_slots(Item::XTonic);
                }
                let _ = sctx.mctx.progress.maybe_give_items(Item::XTonic, 2);
                let ghost noted = *sctx;
                let r = self.roam(sctx);
                proof {
                    assert(Script::top_waits(sctx, &noted));
                    assert(Script::debug_given(
                        &noted.mctx.progress,
                        &old(sctx).mctx.progress,
                        event@,
                    ));
                }
                r
            },
            DebugMenuEvent::LearnAllMagic => {
                learn(&mut sctx.mctx.progress, Magic::Heal);
                texts.push(make_learned_text(Magic::Heal));
                learn(&mut sctx.mctx.progress, Magic::FireEdge);
                texts.push(make_learned_text(Magic::FireEdge));
                learn(&mut sctx.mctx.progress, Magic::EarthEdge);
                texts.push(make_learned_text(Magic::EarthEdge));
                learn(&mut sctx.mctx.progress, Magic::WaterEdge);
                texts.push(make_learned_text(Magic::WaterEdge));
                let ghost noted = *sctx;
                let ghost shown = texts;
                let r = self.show_texts(sctx, texts, AfterTexts::Roam);
                proof {
                    assert(lines(shown@) =~= Script::debug_texts(&noted.mctx.progress, event@));
                    assert(self.row_shown(old(self), sctx, &noted, shown, AfterTexts::Roam, r));
                }
                r
            },
            DebugMenuEvent::ResetStepCounts => {
                let mut i: usize = 0;
                while i < sctx.mctx.progress.steps.len()
                    invariant
                        i <= sctx.mctx.progress.steps@.len(),
                        sctx.wf(),
                        sctx.modes == old(sctx).modes,
                        sctx.mctx.actors == old(sctx).mctx.actors,
                        *self == *old(self),
                        texts@.len() == 0,
                        *sctx == (ScriptContext {
                            mctx: ModeContext { progress: sctx.mctx.progress, ..old(sctx).mctx },
                            ..*old(sctx)
                        }),
                        sctx.mctx.progress == (crate::progress::Progress {
                            steps: sctx.mctx.progress.steps,
                            ..old(sctx).mctx.progress
                        }),
                        sctx.mctx.progress.steps@.len() == old(sctx).mctx.progress.steps@.len(),
                        forall|j: int| 0 <= j < i ==> #[trigger] sctx.mctx.progress.steps@[j] == 0,
                    decreases sctx.mctx.progress.steps@.len() - i,
                {
                    sctx.mctx.progress.steps[i] = 0;
                    i = i + 1;
                }
                texts.push(text("Step counts reset."));
                let ghost noted = *sctx;
                let ghost shown = texts;
                let r = self.show_texts(sctx, texts, AfterTexts::Roam);
                proof {
                    assert(lines(shown@) =~= Script::debug_texts(&noted.mctx.progress, event@));
                    assert(self.row_shown(old(self), sctx, &noted, shown, AfterTexts::Roam, r));
                }
                r
            },
            DebugMenuEvent::ChangeFlag(flag) => {
                let line = if flag == 0 {
                    sctx.mctx.progress.earth_defeated = !sctx.mctx.progress.earth_defeated;
                    make_flag_text("earth_defeated", sctx.mctx.progress.earth_defeated)
                } else if flag == 1 {
                    sctx.mctx.progress.water_defeated = !sctx.mctx.progress.water_defeated;
                    make_flag_text("water_defeated", sctx.mctx.progress.water_defeated)
                } else if flag == 2 {
                    sctx.mctx.progress.fire_defeated = !sctx.mctx.progress.fire_defeated;
                    make_flag_text("fire_defeated", sctx.mctx.progress.fire_defeated)
                } else {
                    return self.fail(ScriptError::UnknownFlag);
                };
                texts.push(line);
                let ghost noted = *sctx;
                let ghost shown = texts;
                let r = self.show_texts(sctx, texts, AfterTexts::Roam);
                proof {
                    assert(lines(shown@) =~= Script::debug_texts(&noted.mctx.progress, event@));
                    assert(self.row_shown(old(self), sctx, &noted, shown, AfterTexts::Roam, r));
                }
                r
            },
            DebugMenuEvent::Warp { level_id, x, y } => {
                self.warp_from_menu(sctx, level_id, x, y)
            },
            DebugMenuEvent::Quit => {
                self.state = ScriptState::Finished;
                Poll::Ready(Ok(()))
            },
        }
    }

    /// What follows the end of a battle.
    fn on_battle_event(&mut self, sctx: &mut ScriptContext, event: BattleEvent, next: AfterBattle) -> (r:
        Poll<Result<(), ScriptError>>)
        requires
            old(sctx).wf(),
            old(sctx).modes@.len() == 1,
            Script::base_parked(old(sctx)),
            Script::at_rest(old(sctx)),
        ensures
            final(self).polls == old(self).polls,
            final(self).holds(final(sctx)),
            (r is Ready) == (final(self).state == ScriptState::Finished),
            !(r matches Poll::Ready(Ok(_))),
            final(self).battle_followed(old(self), final(sctx), old(sctx), event, next, r),
    {
        sctx.mctx.actors[0].visible = true;
        proof {
            assert forall|i: int| 0 <= i < sctx.mctx.actors@.len() implies (
            #[trigger] sctx.mctx.actors@[i]).wf() by {
                if i > 0 {
                    assert(sctx.mctx.actors@[i] == old(sctx).mctx.actors@[i]);
                }
            }
        }
        let ghost shown = *sctx;
        proof {
            assert(Script::player_shown(&shown, old(sctx)));
        }
        match event {
            BattleEvent::Victory => self.battle_done(sctx, true, next),
            BattleEvent::RanAway => self.battle_done(sctx, false, next),
            BattleEvent::Defeat => {
                sctx.fade_out(90);
                let ghost dark = *sctx;
                let r = self.fade_then(sctx, AfterFade::DefeatHome { next });
                proof {
                    assert(dark.fading_out(&shown, 90));
                }
                r
            },
        }
    }

    /// Takes the mode that has done its job off the stack.
    fn pop_done(&mut self, sctx: &mut ScriptContext)
        requires
            old(sctx).wf(),
            old(sctx).modes@.len() == 2,
            Script::base_parked(old(sctx)),
            Script::at_rest(old(sctx)),
        ensures
            *final(self) == *old(self),
            final(sctx).wf(),
            final(sctx).modes@.len() == 1,
            Script::base_parked(final(sctx)),
            Script::at_rest(final(sctx)),
            final(sctx).mctx == old(sctx).mctx,
            final(sctx).levels == old(sctx).levels,
            final(sctx).modes@ == old(sctx).modes@.drop_last(),
    {
        sctx.pop_mode();
    }

    /// The mode on top of the stack made one update that did not
    /// complete, and nothing else changed.
    pub open spec fn top_waits(after: &ScriptContext, before: &ScriptContext) -> bool {
        &&& after.levels == before.levels
        &&& after.modes.same_below_top(&before.modes)
        &&& match (after.modes@.last(), before.modes@.last()) {
            (Mode::Battle(a), Mode::Battle(b)) => a.step(&*b, &after.mctx, &before.mctx, Poll::Pending),
            (Mode::DebugMenu(a), Mode::DebugMenu(b)) => a.step(
                &*b,
                &after.mctx,
                &before.mctx,
                Poll::Pending,
            ),
            (Mode::MainMenu(a), Mode::MainMenu(b)) => a.step(
                &*b,
                &after.mctx,
                &before.mctx,
                Poll::Pending,
            ),
            (Mode::TextBox(a), Mode::TextBox(b)) => a.step(
                &*b,
                &after.mctx,
                &before.mctx,
                Poll::Pending,
            ),
            (Mode::WalkAround(a), Mode::WalkAround(b)) => a.step(
                &*b,
                &after.mctx,
                &before.mctx,
                Poll::Pending,
            ),
            _ => false,
        }
    }

    /// The mode that completed is off the stack; what lies below it and
    /// the levels of the world are as they were.
    pub open spec fn popped(mid: &ScriptContext, before: &ScriptContext) -> bool {
        mid.modes@ == before.modes@.drop_last() && mid.levels == before.levels
    }

    /// The update of free movement completed with an event, and the tick
    /// ends with what follows that event.
    pub open spec fn roaming_done(
        &self,
        before: &Script,
        sctx: &ScriptContext,
        sctx_before: &ScriptContext,
        r: Poll<Result<(), ScriptError>>,
    ) -> bool {
        exists|mid: ScriptContext, event: WalkAroundEvent|
            {
                &&& sctx_before.modes@.last() is WalkAround
                &&& mid.modes@.last() is WalkAround
                &&& #[trigger] mid.modes@.last()->WalkAround_0.step(
                    &*sctx_before.modes@.last()->WalkAround_0,
                    &mid.mctx,
                    &sctx_before.mctx,
                    Poll::Ready(event),
                )
                &&& mid.modes@.len() == sctx_before.modes@.len()
                &&& mid.levels == sctx_before.levels
                &&& self.walk_followed(before, sctx, &mid, event, r)
            }
    }

    /// The update of the debug menu completed with an event, the menu
    /// is off the stack, and the tick ends with what follows that event.
    pub open spec fn debug_menu_done(
        &self,
        before: &Script,
        sctx: &ScriptContext,
        sctx_before: &ScriptContext,
        r: Poll<Result<(), ScriptError>>,
    ) -> bool {
        exists|menu: DebugMenu, mid: ScriptContext, event: DebugMenuEvent|
            {
                &&& sctx_before.modes@.last() is DebugMenu
                &&& #[trigger] menu.step(
                    &*sctx_before.modes@.last()->DebugMenu_0,
                    &mid.mctx,
                    &sctx_before.mctx,
                    Poll::Ready(event),
                )
                &&& Script::popped(&mid, sctx_before)
                &&& self.debug_followed(before, sctx, &mid, event@, r)
            }
    }

    /// The update of the main menu completed, the menu is off the
    /// stack, and the player moves freely again: free movement made one
    /// update.
    pub open spec fn main_menu_done(
        &self,
        before: &Script,
        sctx: &ScriptContext,
        sctx_before: &ScriptContext,
        r: Poll<Result<(), ScriptError>>,
    ) -> bool {
        exists|menu: MainMenu, mid: ScriptContext, event: MainMenuEvent|
            {
                &&& sctx_before.modes@.last() is MainMenu
                &&& #[trigger] menu.step(
                    &*sctx_before.modes@.last()->MainMenu_0,
                    &mid.mctx,
                    &sctx_before.mctx,
                    Poll::Ready(event),
                )
                &&& Script::popped(&mid, sctx_before)
                &&& r is Pending
                &&& *self == (Script { state: ScriptState::Roaming, ..*before })
                &&& Script::top_waits(sctx, &mid)
            }
    }

    /// The update of the text box completed and the box is off the
    /// stack. Where the row has another text, that text is put up; else
    /// the tick ends with what follows the row.
    pub open spec fn texts_done(
        &self,
        before: &Script,
        sctx: &ScriptContext,
        sctx_before: &ScriptContext,
        next: AfterTexts,
        r: Poll<Result<(), ScriptError>>,
    ) -> bool {
        exists|text_box: TextBox, mid: ScriptContext, event: TextBoxEvent|
            {
                &&& sctx_before.modes@.last() is TextBox
                &&& #[trigger] text_box.step(
                    &*sctx_before.modes@.last()->TextBox_0,
                    &mid.mctx,
                    &sctx_before.mctx,
                    Poll::Ready(event),
                )
                &&& Script::popped(&mid, sctx_before)
                &&& if before.next_text + 1 < before.texts@.len() {
                    r is Pending && self.next_text_shown(before, sctx, sctx_before)
                } else {
                    self.texts_followed(
                        &Script { next_text: (before.next_text + 1) as usize, ..*before },
                        sctx,
                        &mid,
                        next,
                        r,
                    )
                }
            }
    }

    /// The update of the battle completed with an event, the battle is
    /// off the stack, and the tick ends with what follows that event.
    pub open spec fn battle_over(
        &self,
        before: &Script,
        sctx: &ScriptContext,
        sctx_before: &ScriptContext,
        next: AfterBattle,
        r: Poll<Result<(), ScriptError>>,
    ) -> bool {
        exists|battle: Battle, mid: ScriptContext, event: BattleEvent|
            {
                &&& sctx_before.modes@.last() is Battle
                &&& #[trigger] battle.step(
                    &*sctx_before.modes@.last()->Battle_0,
                    &mid.mctx,
                    &sctx_before.mctx,
                    Poll::Ready(event),
                )
                &&& Script::popped(&mid, sctx_before)
                &&& self.battle_followed(before, sctx, &mid, event, next, r)
            }
    }

    /// The next text of the row is put up in a text box of its own, still
    /// hidden, in place of the one that was read.
    pub open spec fn next_text_shown(
        &self,
        before: &Script,
        sctx: &ScriptContext,
        sctx_before: &ScriptContext,
    ) -> bool {
        &&& *self == (Script { next_text: (before.next_text + 1) as usize, ..*before })
        &&& sctx.levels == sctx_before.levels
        &&& sctx.modes@.len() == 2
        &&& sctx.modes@[0] == sctx_before.modes@[0]
        &&& sctx.modes@[1] matches Mode::TextBox(t) && t.text.holds(
            before.texts@[before.next_text + 1]@,
            0,
        )
    }

    /// The story waits where it was for the mode on top of the stack,
    /// which made one update.
    pub open spec fn waited(
        &self,
        before: &Script,
        sctx: &ScriptContext,
        sctx_before: &ScriptContext,
        r: Poll<Result<(), ScriptError>>,
    ) -> bool {
        &&& r is Pending
        &&& *self == *before
        &&& Script::top_waits(sctx, sctx_before)
    }

    /// What a tick of the story does, by the state that it finds.
    ///
    /// Before the first tick the world is checked. While a mode is on
    /// top of the stack, the tick is one update of that mode. Where the
    /// update goes on, nothing more happens. Where it completes with an
    /// event, the mode is taken off the stack, but for free movement,
    /// which stays at the bottom, and what follows the event happens in
    /// the same tick: the story takes note of it, puts the next mode on
    /// the stack or lets the player move, and the tick ends pending, or
    /// with the fault that is named for the event. While the screen
    /// fades or the player walks between levels, the tick is one step of
    /// that, and what follows the last step. The story ends without an
    /// error on the debug menu's request to quit, and on nothing else.
    pub open spec fn resumed(
        &self,
        before: &Script,
        sctx: &ScriptContext,
        sctx_before: &ScriptContext,
        r: Poll<Result<(), ScriptError>>,
    ) -> bool {
        &&& r matches Poll::Ready(Ok(_)) ==> before.state == ScriptState::InDebugMenu
        &&& match before.state {
            ScriptState::Init => if has_scripted_levels(&sctx_before.levels) {
                r is Pending && self.state == ScriptState::Roaming
            } else {
                r == Poll::Ready(
                    Err::<(), ScriptError>(ScriptError::Level(LevelError::UnknownLevel)),
                )
            },
            ScriptState::Roaming => self.waited(before, sctx, sctx_before, r)
                || self.roaming_done(before, sctx, sctx_before, r),
            ScriptState::InDebugMenu => self.waited(before, sctx, sctx_before, r)
                || self.debug_menu_done(before, sctx, sctx_before, r),
            ScriptState::InMainMenu => self.waited(before, sctx, sctx_before, r)
                || self.main_menu_done(before, sctx, sctx_before, r),
            ScriptState::Texts { next } => self.waited(before, sctx, sctx_before, r)
                || self.texts_done(before, sctx, sctx_before, next, r),
            ScriptState::InBattle { next } => self.waited(before, sctx, sctx_before, r)
                || self.battle_over(before, sctx, sctx_before, next, r),
            ScriptState::Fading { next } => self.fade_run(before, sctx, sctx_before, next, r),
            ScriptState::WalkingOut { dir } => if Script::at_rest(sctx_before) {
                self.walked_out(before, sctx, sctx_before, dir, r)
            } else {
                Script::walking(self, before, sctx, sctx_before, r)
            },
            ScriptState::WalkingIn { .. } => if Script::at_rest(sctx_before) {
                r is Pending && self.walked_in(before, sctx, sctx_before)
            } else {
                Script::walking(self, before, sctx, sctx_before, r)
            },
            ScriptState::Finished => true,
        }
    }

    /// The player and the other actors made a step of the walk between
    /// two levels; but for them and the fade of the screen nothing changed.
    pub open spec fn walking(
        after: &Script,
        before: &Script,
        sctx: &ScriptContext,
        sctx_before: &ScriptContext,
        r: Poll<Result<(), ScriptError>>,
    ) -> bool {
        &&& r is Pending
        &&& after.state == before.state
        &&& sctx.modes == sctx_before.modes
        &&& sctx.levels == sctx_before.levels
        &&& walk_step(sctx_before.mctx.actors@, sctx.mctx.actors@, Poll::Pending)
        &&& sctx.mctx.fade.color() == sctx_before.mctx.fade.color().update(
            3,
            walk_fade(&sctx.mctx.actors@[0], before.state is WalkingOut),
        )
        &&& sctx.mctx.progress == sctx_before.mctx.progress
        &&& sctx.mctx.level == sctx_before.mctx.level
    }

    /// The first tick of the story: the world is checked, and the player is free to move.
    fn start(&mut self, sctx: &mut ScriptContext) -> (r: Poll<Result<(), ScriptError>>)
        requires
            old(self).holds(old(sctx)),
            old(self).state == ScriptState::Init,
        ensures
            final(self).polls == old(self).polls,
            final(self).holds(final(sctx)),
            (r is Ready) == (final(self).state == ScriptState::Finished),
            !(r matches Poll::Ready(Ok(_))),
            !has_scripted_levels(&old(sctx).levels) ==> r == Poll::Ready(
                Err::<(), ScriptError>(ScriptError::Level(LevelError::UnknownLevel)),
            ),
            has_scripted_levels(&old(sctx).levels) ==> r is Pending && final(self).state
                == ScriptState::Roaming,
    {
        match validate_level_scripts(&sctx.levels) {
            Err(e) => {
                return self.fail(e);
            },
            Ok(()) => {},
        }
        sctx.push_walk_around_mode();
        if sctx.mctx.actors[0].offset_x != 0 || sctx.mctx.actors[0].offset_y != 0 {
            sctx.mctx.actors[0].offset_x = 0;
            sctx.mctx.actors[0].offset_y = 0;
            proof {
                assert forall|i: int| 0 <= i < sctx.mctx.actors@.len() implies (
                #[trigger] sctx.mctx.actors@[i]).wf() by {
                    if i > 0 {
                        assert(sctx.mctx.actors@[i] == old(sctx).mctx.actors@[i]);
                    }
                }
            }
        }
        self.roam(sctx)
    }

    /// A tick of free movement, and what follows where it ends.
    fn poll_roaming(&mut self, sctx: &mut ScriptContext) -> (r: Poll<Result<(), ScriptError>>)
        requires
            old(self).holds(old(sctx)),
            old(self).state == ScriptState::Roaming,
        ensures
            final(self).polls == old(self).polls,
            final(self).holds(final(sctx)),
            (r is Ready) == (final(self).state == ScriptState::Finished),
            !(r matches Poll::Ready(Ok(_))),
            final(self).waited(old(self), final(sctx), old(sctx), r) || final(self).roaming_done(
                old(self),
                final(sctx),
                old(sctx),
                r,
            ),
    {
        match sctx.modes.update_walk_around_mode(&mut sctx.mctx) {
            Poll::Pending => Poll::Pending,
            Poll::Ready(event) => {
                let ghost mid = *sctx;
                let r = self.on_walk_event(sctx, event);
                proof {
                    assert(mid.modes@.last() is WalkAround);
                    assert(mid.modes@.last()->WalkAround_0.step(
                        &*old(sctx).modes@.last()->WalkAround_0,
                        &mid.mctx,
                        &old(sctx).mctx,
                        Poll::Ready(event),
                    ));
                    assert(self.roaming_done(old(self), sctx, old(sctx), r));
                }
                r
            },
        }
    }

    /// A tick of the debug menu, and what follows where it ends.
    fn poll_debug_menu(&mut self, sctx: &mut ScriptContext) -> (r: Poll<Result<(), ScriptError>>)
        requires
            old(self).holds(old(sctx)),
            old(self).state == ScriptState::InDebugMenu,
        ensures
            final(self).polls == old(self).polls,
            final(self).holds(final(sctx)),
            (r is Ready) == (final(self).state == ScriptState::Finished),
            final(self).waited(old(self), final(sctx), old(sctx), r) || final(self).debug_menu_done(
                old(self),
                final(sctx),
                old(sctx),
                r,
            ),
    {
        let polled = sctx.modes.update_debug_menu_mode(&mut sctx.mctx);
        proof {
            sctx.modes.lemma_same_below_top(&old(sctx).modes, 0);
        }
        match polled {
            Poll::Pending => Poll::Pending,
            Poll::Ready(event) => {
                let ghost menu = *sctx.modes@.last()->DebugMenu_0;
                self.pop_done(sctx);
                let ghost mid = *sctx;
                let r = self.on_debug_event(sctx, event);
                proof {
                    assert(menu.step(
                        &*old(sctx).modes@.last()->DebugMenu_0,
                        &mid.mctx,
                        &old(sctx).mctx,
                        Poll::Ready(event),
                    ));
                    assert(Script::popped(&mid, old(sctx)));
                    assert(self.debug_menu_done(old(self), sctx, old(sctx), r));
                }
                r
            },
        }
    }

    /// A tick of the main menu, and what follows where it ends.
    fn poll_main_menu(&mut self, sctx: &mut ScriptContext) -> (r: Poll<Result<(), ScriptError>>)
        requires
            old(self).holds(old(sctx)),
            old(self).state == ScriptState::InMainMenu,
        ensures
            final(self).polls == old(self).polls,
            final(self).holds(final(sctx)),
            (r is Ready) == (final(self).state == ScriptState::Finished),
            !(r matches Poll::Ready(Ok(_))),
            final(self).waited(old(self), final(sctx), old(sctx), r) || final(self).main_menu_done(
                old(self),
                final(sctx),
                old(sctx),
                r,
            ),
    {
        let polled = sctx.modes.update_main_menu_mode(&mut sctx.mctx);
        proof {
            sctx.modes.lemma_same_below_top(&old(sctx).modes, 0);
        }
        match polled {
            Poll::Pending => Poll::Pending,
            Poll::Ready(MainMenuEvent::Done) => {
                let ghost menu = *sctx.modes@.last()->MainMenu_0;
                self.pop_done(sctx);
                let ghost mid = *sctx;
                let r = self.roam(sctx);
                proof {
                    assert(menu.step(
                        &*old(sctx).modes@.last()->MainMenu_0,
                        &mid.mctx,
                        &old(sctx).mctx,
                        Poll::Ready(MainMenuEvent::Done),
                    ));
                    assert(Script::popped(&mid, old(sctx)));
                    assert(self.main_menu_done(old(self), sctx, old(sctx), r));
                }
                r
            },
        }
    }

    /// A tick of the text box that is shown, and what follows where it ends: the next text of the row, or what comes after the row.
    fn poll_texts(&mut self, sctx: &mut ScriptContext, next: AfterTexts) -> (r: Poll<Result<(), ScriptError>>)
        requires
            old(self).holds(old(sctx)),
            old(self).state == (ScriptState::Texts { next }),
        ensures
            final(self).polls == old(self).polls,
            final(self).holds(final(sctx)),
            (r is Ready) == (final(self).state == ScriptState::Finished),
            !(r matches Poll::Ready(Ok(_))),
            final(self).waited(old(self), final(sctx), old(sctx), r) || final(self).texts_done(
                old(self),
                final(sctx),
                old(sctx),
                next,
                r,
            ),
    {
        let polled = sctx.modes.update_text_box_mode(&mut sctx.mctx);
        proof {
            sctx.modes.lemma_same_below_top(&old(sctx).modes, 0);
        }
        match polled {
            Poll::Pending => Poll::Pending,
            Poll::Ready(TextBoxEvent::Done) => {
                let ghost text_box = *sctx.modes@.last()->TextBox_0;
                self.pop_done(sctx);
                let ghost mid = *sctx;
                let shown = self.texts.len();
                self.next_text = self.next_text + 1;
                let r = if self.next_text < shown {
                    self.show_next_text(sctx, next)
                } else {
                    self.after_texts(sctx, next)
                };
                proof {
                    assert(text_box.step(
                        &*old(sctx).modes@.last()->TextBox_0,
                        &mid.mctx,
                        &old(sctx).mctx,
                        Poll::Ready(TextBoxEvent::Done),
                    ));
                    assert(Script::popped(&mid, old(sctx)));
                    assert(self.texts_done(old(self), sctx, old(sctx), next, r));
                }
                r
            },
        }
    }

    /// A tick of the battle, and what follows where it ends.
    fn poll_battle(&mut self, sctx: &mut ScriptContext, next: AfterBattle) -> (r: Poll<Result<(), ScriptError>>)
        requires
            old(self).holds(old(sctx)),
            old(self).state == (ScriptState::InBattle { next }),
        ensures
            final(self).polls == old(self).polls,
            final(self).holds(final(sctx)),
            (r is Ready) == (final(self).state == ScriptState::Finished),
            !(r matches Poll::Ready(Ok(_))),
            final(self).waited(old(self), final(sctx), old(sctx), r) || final(self).battle_over(
                old(self),
                final(sctx),
                old(sctx),
                next,
                r,
            ),
    {
        let polled = sctx.modes.update_battle_mode(&mut sctx.mctx);
        proof {
            sctx.modes.lemma_same_below_top(&old(sctx).modes, 0);
        }
        match polled {
            Poll::Pending => Poll::Pending,
            Poll::Ready(event) => {
                let ghost battle = *sctx.modes@.last()->Battle_0;
                self.pop_done(sctx);
                let ghost mid = *sctx;
                let r = self.on_battle_event(sctx, event, next);
                proof {
                    assert(battle.step(
                        &*old(sctx).modes@.last()->Battle_0,
                        &mid.mctx,
                        &old(sctx).mctx,
                        Poll::Ready(event),
                    ));
                    assert(Script::popped(&mid, old(sctx)));
                    assert(self.battle_over(old(self), sctx, old(sctx), next, r));
                }
                r
            },
        }
    }

    /// Runs the story up to its next suspension point or to its end.
    pub fn resume(&mut self, sctx: &mut ScriptContext) -> (r: Poll<Result<(), ScriptError>>)
        requires
            old(self).holds(old(sctx)),
            old(self).state != ScriptState::Finished,
        ensures
            final(self).polls == old(self).polls,
            final(self).holds(final(sctx)),
            (r is Ready) == (final(self).state == ScriptState::Finished),
            final(self).resumed(old(self), final(sctx), old(sctx), r),
    {
        match self.state {
            ScriptState::Init => self.start(sctx),
            ScriptState::Roaming => self.poll_roaming(sctx),
            ScriptState::InDebugMenu => self.poll_debug_menu(sctx),
            ScriptState::InMainMenu => self.poll_main_menu(sctx),
            ScriptState::Texts { next } => self.poll_texts(sctx, next),
            ScriptState::InBattle { next } => self.poll_battle(sctx, next),
            ScriptState::Fading { next } => self.fade_then(sctx, next),
            ScriptState::WalkingOut { dir } => self.walk_out(sctx, dir),
            ScriptState::WalkingIn { dir } => self.walk_in(sctx, dir),
            ScriptState::Finished => Poll::Ready(Ok(())),
        }
    }
}

impl Script {
    /// What a tick makes of the story and its context: the music moves
    /// a step towards the volume that the story set, then the story runs
    /// up to its next suspension point, and where it goes on the keys
    /// that were pressed are forgotten.
    pub open spec fn ticked(
        &self,
        before: &Script,
        sctx: &ScriptContext,
        sctx_before: &ScriptContext,
        r: Poll<Result<(), ScriptError>>,
    ) -> bool {
        exists|tuned: ScriptContext, run: ScriptContext, resumed: Script|
            {
                &&& tuned == (ScriptContext {
                    mctx: ModeContext { audio: tuned.mctx.audio, ..sctx_before.mctx },
                    ..*sctx_before
                })
                &&& tuned.mctx.audio@ == sctx_before.mctx.audio@.adjusted()
                &&& #[trigger] resumed.resumed(before, &run, &tuned, r)
                &&& *self == (Script { polls: self.polls, ..resumed })
                &&& if r is Pending {
                    &&& *sctx == (ScriptContext {
                        mctx: ModeContext { input: sctx.mctx.input, ..run.mctx },
                        ..run
                    })
                    &&& forall|key: crate::input::GameKey|
                        !sctx.mctx.input.key_pressed(key) && sctx.mctx.input.key_down(key)
                            == run.mctx.input.key_down(key)
                } else {
                    *sctx == run
                }
            }
    }

    /// One tick of the game: the music moves towards the volume that the
    /// story set, the story runs up to its next suspension point, and the
    /// keys that were pressed are forgotten where the story goes on.
    pub fn tick(&mut self, sctx: &mut ScriptContext) -> (r: Poll<Result<(), ScriptError>>)
        requires
            old(self).holds(old(sctx)),
            old(self).state != ScriptState::Finished,
        ensures
            final(self).holds(final(sctx)),
            final(self).polls@ == old(self).polls@ + 1,
            (r is Ready) == (final(self).state == ScriptState::Finished),
            final(self).ticked(old(self), final(sctx), old(sctx), r),
    {
        sctx.mctx.audio.adjust_music_volume_scripted();
        let ghost tuned = *sctx;
        let r = self.resume(sctx);
        let ghost run = *sctx;
        let ghost resumed = *self;
        if r.is_pending() {
            sctx.mctx.input.reset_keys_pressed();
        }
        self.polls = Ghost((self.polls@ + 1) as nat);
        proof {
            assert(resumed.resumed(old(self), &run, &tuned, r));
            assert(*self == (Script { polls: self.polls, ..resumed }));
        }
        r
    }
}

/// The story of the game as a task, before its first tick.
pub fn script_main() -> (s: Script)
    ensures
        s.state == ScriptState::Init,
        s.polls@ == 0,
        s.unstarted(),
{
    Script::new()
}

impl Task for Script {
    type Shared = ScriptContext;

    type Output = Result<(), ScriptError>;

    open spec fn inv(&self, shared: &ScriptContext) -> bool {
        self.holds(shared)
    }

    open spec fn finished(&self) -> bool {
        self.state == ScriptState::Finished
    }

    open spec fn polls(&self) -> nat {
        self.polls@
    }

    /// A poll is one tick of the game.
    open spec fn stepped(
        &self,
        before: &Script,
        shared: &ScriptContext,
        shared_before: &ScriptContext,
        r: Poll<Result<(), ScriptError>>,
    ) -> bool {
        self.ticked(before, shared, shared_before, r)
    }

    /// One tick of the game.
    fn poll(&mut self, shared: &mut ScriptContext) -> (r: Poll<Result<(), ScriptError>>) {
        self.tick(shared)
    }
}

/// Where one actor but the player changed and stayed sound, the actors
/// are sound and the player is where it was.
proof fn lemma_actor_changed(after: Seq<Actor>, before: Seq<Actor>, changed: int)
    requires
        actors_wf(before),
        after.len() == before.len(),
        0 < changed < after.len(),
        forall|i: int| 0 <= i < after.len() && i != changed ==> #[trigger] after[i] == before[i],
        after[changed].sprite.wf(),
    ensures
        actors_wf(after),
        after[0] == before[0],
{
    assert forall|i: int| 0 <= i < after.len() implies (#[trigger] after[i]).wf() by {
        if i != changed {
            assert(after[i] == before[i]);
        }
    }
}

} // verus!
