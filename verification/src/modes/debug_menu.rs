//! The debug menu: shortcuts through the game for those who build it.
use vstd::prelude::*;
use crate::async_utils::Poll;
use crate::audio::Sfx;
use crate::contexts::ModeContext;
use crate::draw::{views, DrawCommand, DrawCommandView};
use crate::input::GameKey;
use crate::modes::battle::cursor_str;
use crate::modes::menu::{entry_moved, move_entry};
use crate::progress::{Armor, Progress, Weapon, NUM_STEP_COUNTS};
use crate::resources::Resources;
use crate::strings::{
    decimal, pad_left, push_decimal_right_aligned, push_str, push_truth, string_from_chars, truth,
};
use crate::text::Text;
use crate::window::Window;

verus! {

pub const CURSOR_X: i32 = 91;

pub const CURSOR_Y: i32 = 44;

/// Number of entries of the debug menu.
pub const TOP_ENTRIES: i32 = 11;

/// The menus that entries of the debug menu open.
#[derive(Clone, Copy, Debug, PartialEq, Eq, Structural)]
pub enum DebugSubMenu {
    Battle,
    SetWeapon,
    SetArmor,
    StepCounts,
    Flags,
    Warp,
}

/// Where an update of the debug menu stands.
#[derive(Clone, Copy, Debug, PartialEq, Eq, Structural)]
pub enum DebugMenuPhase {
    /// No update is in progress.
    Start,
    Top { selection: i32 },
    Sub { menu: DebugSubMenu, selection: i32 },
}

pub struct DebugMenu {
    pub window: Window,
    pub text: Text,
    pub cursor: Text,
    pub phase: DebugMenuPhase,
}

pub enum DebugMenuEvent {
    Cancel,
    GainLevel,
    Battle(i32),
    SetWeapon(Option<Weapon>),
    SetArmor(Option<Armor>),
    GetItems,
    LearnAllMagic,
    ResetStepCounts,
    ChangeFlag(i32),
    Warp { level_id: &'static str, x: i32, y: i32 },
    Quit,
}

/// What a debug menu event asks for, as contracts see it.
pub enum DebugMenuEventView {
    Cancel,
    GainLevel,
    Battle(i32),
    SetWeapon(Option<(Seq<char>, i32)>),
    SetArmor(Option<(Seq<char>, i32)>),
    GetItems,
    LearnAllMagic,
    ResetStepCounts,
    ChangeFlag(i32),
    Warp { level_id: Seq<char>, x: i32, y: i32 },
    Quit,
}

impl View for DebugMenuEvent {
    type V = DebugMenuEventView;

    open spec fn view(&self) -> DebugMenuEventView {
        match *self {
            DebugMenuEvent::Cancel => DebugMenuEventView::Cancel,
            DebugMenuEvent::GainLevel => DebugMenuEventView::GainLevel,
            DebugMenuEvent::Battle(b) => DebugMenuEventView::Battle(b),
            DebugMenuEvent::SetWeapon(w) => DebugMenuEventView::SetWeapon(
                match w {
                    Some(w) => Some((w.name@, w.attack)),
                    None => None,
                },
            ),
            DebugMenuEvent::SetArmor(a) => DebugMenuEventView::SetArmor(
                match a {
                    Some(a) => Some((a.name@, a.defense)),
                    None => None,
                },
            ),
            DebugMenuEvent::GetItems => DebugMenuEventView::GetItems,
            DebugMenuEvent::LearnAllMagic => DebugMenuEventView::LearnAllMagic,
            DebugMenuEvent::ResetStepCounts => DebugMenuEventView::ResetStepCounts,
            DebugMenuEvent::ChangeFlag(f) => DebugMenuEventView::ChangeFlag(f),
            DebugMenuEvent::Warp { level_id, x, y } => DebugMenuEventView::Warp {
                level_id: level_id@,
                x,
                y,
            },
            DebugMenuEvent::Quit => DebugMenuEventView::Quit,
        }
    }
}

impl DebugSubMenu {
    /// Number of entries of the menu, back included.
    pub open spec fn spec_entries(self) -> i32 {
        match self {
            DebugSubMenu::Battle => 10i32,
            DebugSubMenu::SetWeapon => 6i32,
            DebugSubMenu::SetArmor => 6i32,
            DebugSubMenu::StepCounts => 2i32,
            DebugSubMenu::Flags => 4i32,
            DebugSubMenu::Warp => 5i32,
        }
    }

    #[verifier::when_used_as_spec(spec_entries)]
    pub fn entries(self) -> (n: i32)
        ensures
            n == self.spec_entries(),
    {
        match self {
            DebugSubMenu::Battle => 10,
            DebugSubMenu::SetWeapon => 6,
            DebugSubMenu::SetArmor => 6,
            DebugSubMenu::StepCounts => 2,
            DebugSubMenu::Flags => 4,
            DebugSubMenu::Warp => 5,
        }
    }

    /// The entry of the debug menu that opens the menu.
    pub open spec fn spec_opened_by(self) -> i32 {
        match self {
            DebugSubMenu::Battle => 2i32,
            DebugSubMenu::SetWeapon => 3i32,
            DebugSubMenu::SetArmor => 4i32,
            DebugSubMenu::StepCounts => 7i32,
            DebugSubMenu::Flags => 8i32,
            DebugSubMenu::Warp => 9i32,
        }
    }

    #[verifier::when_used_as_spec(spec_opened_by)]
    pub fn opened_by(self) -> (n: i32)
        ensures
            n == self.spec_opened_by(),
    {
        match self {
            DebugSubMenu::Battle => 2,
            DebugSubMenu::SetWeapon => 3,
            DebugSubMenu::SetArmor => 4,
            DebugSubMenu::StepCounts => 7,
            DebugSubMenu::Flags => 8,
            DebugSubMenu::Warp => 9,
        }
    }

    /// What confirm asks for at an entry of the menu other than back.
    pub open spec fn chosen(self, selection: i32) -> DebugMenuEventView {
        match self {
            DebugSubMenu::Battle => DebugMenuEventView::Battle((selection - 1) as i32),
            DebugSubMenu::SetWeapon => DebugMenuEventView::SetWeapon(
                if selection == 1 {
                    None
                } else if selection == 2 {
                    Some(("Short Sword"@, 2i32))
                } else if selection == 3 {
                    Some(("Long Sword"@, 7i32))
                } else if selection == 4 {
                    Some(("Duelist Sword"@, 13i32))
                } else {
                    Some(("Valor Blade"@, 25i32))
                },
            ),
            DebugSubMenu::SetArmor => DebugMenuEventView::SetArmor(
                if selection == 1 {
                    None
                } else if selection == 2 {
                    Some(("Leather Armor"@, 2i32))
                } else if selection == 3 {
                    Some(("Chain Vest"@, 7i32))
                } else if selection == 4 {
                    Some(("Steel Armor"@, 13i32))
                } else {
                    Some(("Mythic Plate"@, 25i32))
                },
            ),
            DebugSubMenu::StepCounts => DebugMenuEventView::ResetStepCounts,
            DebugSubMenu::Flags => DebugMenuEventView::ChangeFlag((selection - 1) as i32),
            DebugSubMenu::Warp => if selection == 1 {
                DebugMenuEventView::Warp { level_id: "Start"@, x: 6, y: 3 }
            } else if selection == 2 {
                DebugMenuEventView::Warp { level_id: "Earth_1"@, x: 9, y: 21 }
            } else if selection == 3 {
                DebugMenuEventView::Warp { level_id: "Water_1"@, x: 9, y: 21 }
            } else {
                DebugMenuEventView::Warp { level_id: "Fire_1"@, x: 9, y: 21 }
            },
        }
    }

    fn event_at(self, selection: i32) -> (e: DebugMenuEvent)
        requires
            1 <= selection < self.entries(),
        ensures
            e@ == self.chosen(selection),
    {
        match self {
            DebugSubMenu::Battle => DebugMenuEvent::Battle(selection - 1),
            DebugSubMenu::SetWeapon => DebugMenuEvent::SetWeapon(
                if selection == 1 {
                    None
                } else if selection == 2 {
                    Some(Weapon { name: "Short Sword".to_owned(), attack: 2 })
                } else if selection == 3 {
                    Some(Weapon { name: "Long Sword".to_owned(), attack: 7 })
                } else if selection == 4 {
                    Some(Weapon { name: "Duelist Sword".to_owned(), attack: 13 })
                } else {
                    Some(Weapon { name: "Valor Blade".to_owned(), attack: 25 })
                },
            ),
            DebugSubMenu::SetArmor => DebugMenuEvent::SetArmor(
                if selection == 1 {
                    None
                } else if selection == 2 {
                    Some(Armor { name: "Leather Armor".to_owned(), defense: 2 })
                } else if selection == 3 {
                    Some(Armor { name: "Chain Vest".to_owned(), defense: 7 })
                } else if selection == 4 {
                    Some(Armor { name: "Steel Armor".to_owned(), defense: 13 })
                } else {
                    Some(Armor { name: "Mythic Plate".to_owned(), defense: 25 })
                },
            ),
            DebugSubMenu::StepCounts => DebugMenuEvent::ResetStepCounts,
            DebugSubMenu::Flags => DebugMenuEvent::ChangeFlag(selection - 1),
            DebugSubMenu::Warp => if selection == 1 {
                DebugMenuEvent::Warp { level_id: "Start", x: 6, y: 3 }
            } else if selection == 2 {
                DebugMenuEvent::Warp { level_id: "Earth_1", x: 9, y: 21 }
            } else if selection == 3 {
                DebugMenuEvent::Warp { level_id: "Water_1", x: 9, y: 21 }
            } else {
                DebugMenuEvent::Warp { level_id: "Fire_1", x: 9, y: 21 }
            },
        }
    }
}

/// The menu that an entry of the debug menu opens, if it opens one.
pub open spec fn opens(selection: i32) -> Option<DebugSubMenu> {
    if selection == 2 {
        Some(DebugSubMenu::Battle)
    } else if selection == 3 {
        Some(DebugSubMenu::SetWeapon)
    } else if selection == 4 {
        Some(DebugSubMenu::SetArmor)
    } else if selection == 7 {
        Some(DebugSubMenu::StepCounts)
    } else if selection == 8 {
        Some(DebugSubMenu::Flags)
    } else if selection == 9 {
        Some(DebugSubMenu::Warp)
    } else {
        None
    }
}

/// What confirm asks for at an entry of the debug menu that opens no menu.
pub open spec fn top_chosen(selection: i32) -> DebugMenuEventView {
    if selection == 0 {
        DebugMenuEventView::Cancel
    } else if selection == 1 {
        DebugMenuEventView::GainLevel
    } else if selection == 5 {
        DebugMenuEventView::GetItems
    } else if selection == 6 {
        DebugMenuEventView::LearnAllMagic
    } else {
        DebugMenuEventView::Quit
    }
}

/// The sum of the step counters, at most the largest `i32`.
pub open spec fn steps_total(steps: Seq<i32>) -> int
    decreases steps.len(),
{
    if steps.len() == 0 {
        0
    } else {
        let sum = steps_total(steps.drop_last()) + steps.last();
        if sum > i32::MAX {
            i32::MAX as int
        } else if sum < i32::MIN {
            i32::MIN as int
        } else {
            sum
        }
    }
}

fn total_steps(steps: &Vec<i32>) -> (total: i32)
    ensures
        total == steps_total(steps@),
{
    let mut total: i32 = 0;
    let mut i: usize = 0;
    assert(steps@.take(0) =~= Seq::<i32>::empty());
    while i < steps.len()
        invariant
            i <= steps@.len(),
            total == steps_total(steps@.take(i as int)),
        decreases steps@.len() - i,
    {
        proof {
            let next = steps@.take(i + 1);
            assert(next.drop_last() =~= steps@.take(i as int));
            assert(next.last() == steps@[i as int]);
        }
        total = crate::numeric::add_clamped(total, steps[i]);
        i = i + 1;
    }
    assert(steps@.take(steps@.len() as int) =~= steps@);
    total
}

/// The entries of the menu of step counts: the steps made in each kind
/// of level, their total, and the steps left to the next encounter.
pub open spec fn step_counts_text(steps: Seq<i32>, encounter_steps: i32) -> Seq<char> {
    "Back\nReset steps:"@ + pad_left(decimal(steps_total(steps)), 9) + "\nTown:"@ + pad_left(
        decimal(steps[6] as int),
        16,
    ) + "\nWilderness 1:"@ + pad_left(decimal(steps[0] as int), 8) + "\nWilderness 2:"@ + pad_left(
        decimal(steps[1] as int),
        8,
    ) + "\nWilderness 3:"@ + pad_left(decimal(steps[2] as int), 8) + "\nEarth Castle:"@ + pad_left(
        decimal(steps[3] as int),
        8,
    ) + "\nWater Castle:"@ + pad_left(decimal(steps[4] as int), 8) + "\nFire Castle:"@ + pad_left(
        decimal(steps[5] as int),
        9,
    ) + "\n\nNext encounter:"@ + pad_left(decimal(encounter_steps as int), 6)
}

fn make_step_counts_text(progress: &Progress, encounter_steps: i32) -> (s: String)
    requires
        progress.steps@.len() == NUM_STEP_COUNTS,
    ensures
        s@ == step_counts_text(progress.steps@, encounter_steps),
{
    let mut out: Vec<char> = Vec::new();
    push_str(&mut out, "Back\nReset steps:");
    push_decimal_right_aligned(&mut out, total_steps(&progress.steps) as i64, 9);
    push_str(&mut out, "\nTown:");
    push_decimal_right_aligned(&mut out, progress.steps[NUM_STEP_COUNTS - 1] as i64, 16);
    push_str(&mut out, "\nWilderness 1:");
    push_decimal_right_aligned(&mut out, progress.steps[0] as i64, 8);
    push_str(&mut out, "\nWilderness 2:");
    push_decimal_right_aligned(&mut out, progress.steps[1] as i64, 8);
    push_str(&mut out, "\nWilderness 3:");
    push_decimal_right_aligned(&mut out, progress.steps[2] as i64, 8);
    push_str(&mut out, "\nEarth Castle:");
    push_decimal_right_aligned(&mut out, progress.steps[3] as i64, 8);
    push_str(&mut out, "\nWater Castle:");
    push_decimal_right_aligned(&mut out, progress.steps[4] as i64, 8);
    push_str(&mut out, "\nFire Castle:");
    push_decimal_right_aligned(&mut out, progress.steps[5] as i64, 9);
    push_str(&mut out, "\n\nNext encounter:");
    push_decimal_right_aligned(&mut out, encounter_steps as i64, 6);
    string_from_chars(&out)
}

/// The entries of the menu of story flags.
pub open spec fn flags_text(earth: bool, water: bool, fire: bool) -> Seq<char> {
    "Back\nearth_defeated: "@ + truth(earth) + "\nwater_defeated: "@ + truth(water)
        + "\nfire_defeated:  "@ + truth(fire)
}

fn make_flags_text(progress: &Progress) -> (s: String)
    ensures
        s@ == flags_text(progress.earth_defeated, progress.water_defeated, progress.fire_defeated),
{
    let mut out: Vec<char> = Vec::new();
    push_str(&mut out, "Back\nearth_defeated: ");
    push_truth(&mut out, progress.earth_defeated);
    push_str(&mut out, "\nwater_defeated: ");
    push_truth(&mut out, progress.water_defeated);
    push_str(&mut out, "\nfire_defeated:  ");
    push_truth(&mut out, progress.fire_defeated);
    string_from_chars(&out)
}

/// The entries of the debug menu.
pub open spec fn spec_debug_menu_text() -> Seq<char> {
    "Return\nGain Level\nBattle\u{2026}\nSet Weapon\u{2026}\nSet Armor\u{2026}\nGet Items\nLearn All Magic\nStep Counts\u{2026}\nFlags\u{2026}\nWarp\u{2026}\nQuit Game"@
}

/// The entries of the debug menu.
pub fn debug_menu_text() -> (s: &'static str)
    ensures
        s@ == spec_debug_menu_text(),
{
    "Return\nGain Level\nBattle\u{2026}\nSet Weapon\u{2026}\nSet Armor\u{2026}\nGet Items\nLearn All Magic\nStep Counts\u{2026}\nFlags\u{2026}\nWarp\u{2026}\nQuit Game"
}

impl DebugMenu {
    pub open spec fn wf(&self) -> bool {
        &&& self.text.wf()
        &&& self.cursor.wf()
        &&& match self.phase {
            DebugMenuPhase::Start => true,
            DebugMenuPhase::Top { selection } => 0 <= selection < TOP_ENTRIES,
            DebugMenuPhase::Sub { menu, selection } => 0 <= selection < menu.entries(),
        }
    }

    /// The entries of a menu that the debug menu opens, one a line.
    pub open spec fn sub_menu_text(menu: DebugSubMenu, ctx: &ModeContext) -> Seq<char> {
        match menu {
            DebugSubMenu::Battle => "Back\nWilderness 1\nWilderness 2\nWilderness 3\nEarth Castle\nWater Castle\nFire Castle\nEarth Spirit\nWater Spirit\nFire Spirit"@,
            DebugSubMenu::SetWeapon => "Back\n(none)\nShort Sword\nLong Sword\nDuelist Sword\nValor Blade"@,
            DebugSubMenu::SetArmor => "Back\n(none)\nLeather Armor\nChain Vest\nSteel Armor\nMythic Plate"@,
            DebugSubMenu::StepCounts => step_counts_text(ctx.progress.steps@, ctx.encounter_steps),
            DebugSubMenu::Flags => flags_text(
                ctx.progress.earth_defeated,
                ctx.progress.water_defeated,
                ctx.progress.fire_defeated,
            ),
            DebugSubMenu::Warp => "Back\nTown\nEarth Castle\nWater Castle\nFire Castle"@,
        }
    }

    /// Where the cursor stands beside an entry.
    pub open spec fn cursor_place(selection: i32) -> (i32, i32) {
        (CURSOR_X, (CURSOR_Y + selection * 8) as i32)
    }

    /// The menu shows the entries that go with its phase, and the cursor
    /// beside the entry that is selected.
    pub open spec fn shows(&self, ctx: &ModeContext) -> bool {
        &&& self.cursor.reads(seq![crate::text::CURSOR_CHAR])
        &&& match self.phase {
            DebugMenuPhase::Start => self.cursor.offset() == DebugMenu::cursor_place(0),
            DebugMenuPhase::Top { selection } => {
                &&& self.text.reads(spec_debug_menu_text())
                &&& self.cursor.offset() == DebugMenu::cursor_place(selection)
            },
            DebugMenuPhase::Sub { menu, selection } => {
                &&& self.text.reads(DebugMenu::sub_menu_text(menu, ctx))
                &&& self.cursor.offset() == DebugMenu::cursor_place(selection)
            },
        }
    }

    /// What no update changes: the window, the place of the entries, and
    /// the mark of the cursor.
    pub open spec fn same_frame(&self, before: &DebugMenu) -> bool {
        &&& self.window == before.window
        &&& self.text.offset() == before.text.offset()
        &&& self.text.cell() == before.text.cell()
        &&& self.cursor.glyphs() == before.cursor.glyphs()
        &&& self.cursor.cell() == before.cursor.cell()
        &&& self.cursor.size() == before.cursor.size()
        &&& self.cursor.shown() == before.cursor.shown()
    }

    pub fn new(res: &Resources) -> (m: DebugMenu)
        requires
            res.window_textures.wf(),
        ensures
            m.wf(),
            m.phase == DebugMenuPhase::Start,
            m.window.placed(&res.window_textures, 83, 36, 154, 104),
            m.text.written(&res.font, 97, 44, Seq::empty()),
            m.cursor.written(&res.font, CURSOR_X, CURSOR_Y, seq![crate::text::CURSOR_CHAR]),
            forall|ctx: &ModeContext| m.shows(ctx),
    {
        DebugMenu {
            window: Window::new(&res.window_textures, 83, 36, 154, 104),
            text: Text::new(&res.font, 97, 44),
            cursor: Text::from_str(&res.font, CURSOR_X, CURSOR_Y, cursor_str()),
            phase: DebugMenuPhase::Start,
        }
    }

    pub open spec fn drawn(&self) -> Seq<DrawCommandView> {
        self.window.drawn() + self.text.drawn() + self.cursor.drawn()
    }

    pub fn draw(&self, out: &mut Vec<DrawCommand>)
        requires
            self.wf(),
        ensures
            views(final(out)@) == views(old(out)@) + self.drawn(),
    {
        self.window.draw(out);
        self.text.draw(out);
        self.cursor.draw(out);
        assert(views(final(out)@) =~= views(old(out)@) + self.drawn());
    }

    fn update_cursor_pos(&mut self, selection: i32)
        requires
            0 <= selection < TOP_ENTRIES,
        ensures
            final(self).cursor.offset() == (CURSOR_X, (CURSOR_Y + selection * 8) as i32),
            old(self).cursor.wf() ==> final(self).cursor.wf(),
            *final(self) == (DebugMenu { cursor: final(self).cursor, ..*old(self) }),
            final(self).same_frame(old(self)),
    {
        self.cursor.set_offset(CURSOR_X, CURSOR_Y + selection * 8);
    }

    fn open_sub_menu(&mut self, mctx: &ModeContext, menu: DebugSubMenu)
        requires
            old(self).wf(),
            mctx.progress.wf(),
        ensures
            final(self).wf(),
            final(self).window == old(self).window,
            final(self).phase == (DebugMenuPhase::Sub { menu, selection: 0 }),
            final(self).cursor.offset() == (CURSOR_X, CURSOR_Y),
            final(self).same_frame(old(self)),
            final(self).text.reads(DebugMenu::sub_menu_text(menu, mctx)),
    {
        match menu {
            DebugSubMenu::Battle => {
                self.text.set_text(
                    "Back\nWilderness 1\nWilderness 2\nWilderness 3\nEarth Castle\nWater Castle\nFire Castle\nEarth Spirit\nWater Spirit\nFire Spirit",
                );
            },
            DebugSubMenu::SetWeapon => {
                self.text.set_text(
                    "Back\n(none)\nShort Sword\nLong Sword\nDuelist Sword\nValor Blade",
                );
            },
            DebugSubMenu::SetArmor => {
                self.text.set_text(
                    "Back\n(none)\nLeather Armor\nChain Vest\nSteel Armor\nMythic Plate",
                );
            },
            DebugSubMenu::StepCounts => {
                let text = make_step_counts_text(&mctx.progress, mctx.encounter_steps);
                self.text.set_text(text.as_str());
            },
            DebugSubMenu::Flags => {
                let text = make_flags_text(&mctx.progress);
                self.text.set_text(text.as_str());
            },
            DebugSubMenu::Warp => {
                self.text.set_text("Back\nTown\nEarth Castle\nWater Castle\nFire Castle");
            },
        }
        self.update_cursor_pos(0);
        self.phase = DebugMenuPhase::Sub { menu, selection: 0 };
    }

    /// What a poll makes of the debug menu itself. Cancel and the debug
    /// key leave it. Confirm opens the menu of the entry, or asks for what
    /// the entry stands for. Up and down move through the entries.
    pub open spec fn step_top(
        &self,
        ctx: &ModeContext,
        ctx_before: &ModeContext,
        selection: i32,
        r: Poll<DebugMenuEvent>,
    ) -> bool {
        let input = &ctx_before.input;
        let a = ctx_before.audio@;
        if input.key_pressed(GameKey::Cancel) || input.key_pressed(GameKey::DebugMenu) {
            &&& r matches Poll::Ready(e)
            &&& e@ == DebugMenuEventView::Cancel
            &&& self.phase == DebugMenuPhase::Start
            &&& ctx.audio@ == a.with_sfx(Sfx::Cancel)
        } else if input.key_pressed(GameKey::Confirm) {
            match opens(selection) {
                Some(menu) => {
                    &&& r is Pending
                    &&& self.phase == (DebugMenuPhase::Sub { menu, selection: 0 })
                    &&& ctx.audio@ == a.with_sfx(Sfx::Confirm)
                },
                None => {
                    &&& r matches Poll::Ready(e)
                    &&& e@ == top_chosen(selection)
                    &&& self.phase == DebugMenuPhase::Start
                    &&& ctx.audio@ == a.with_sfx(
                        if selection == 0 {
                            Sfx::Cancel
                        } else {
                            Sfx::Confirm
                        },
                    )
                },
            }
        } else if input.key_pressed(GameKey::Up) || input.key_pressed(GameKey::Down) {
            &&& r is Pending
            &&& self.phase == (DebugMenuPhase::Top {
                selection: entry_moved(
                    selection as int,
                    TOP_ENTRIES as int,
                    input.key_pressed(GameKey::Up),
                    input.key_pressed(GameKey::Down),
                ) as i32,
            })
            &&& ctx.audio@ == a.with_sfx(Sfx::Cursor)
        } else {
            &&& r is Pending
            &&& self.phase == (DebugMenuPhase::Top { selection })
            &&& ctx.audio == ctx_before.audio
        }
    }

    /// What a poll makes of a menu that the debug menu opened. Cancel and
    /// the entry back lead back to the debug menu. Confirm asks for what
    /// the entry stands for. Up and down move through the entries.
    pub open spec fn step_sub(
        &self,
        ctx: &ModeContext,
        ctx_before: &ModeContext,
        menu: DebugSubMenu,
        selection: i32,
        r: Poll<DebugMenuEvent>,
    ) -> bool {
        let input = &ctx_before.input;
        let a = ctx_before.audio@;
        if input.key_pressed(GameKey::Cancel) || (input.key_pressed(GameKey::Confirm) && selection
            == 0) {
            &&& r is Pending
            &&& self.phase == (DebugMenuPhase::Top { selection: menu.opened_by() })
            &&& ctx.audio@ == a.with_sfx(Sfx::Cancel)
        } else if input.key_pressed(GameKey::Confirm) {
            &&& r matches Poll::Ready(e)
            &&& e@ == menu.chosen(selection)
            &&& self.phase == DebugMenuPhase::Start
            &&& ctx.audio@ == a.with_sfx(Sfx::Confirm)
        } else if input.key_pressed(GameKey::Up) || input.key_pressed(GameKey::Down) {
            &&& r is Pending
            &&& self.phase == (DebugMenuPhase::Sub {
                menu,
                selection: entry_moved(
                    selection as int,
                    menu.entries() as int,
                    input.key_pressed(GameKey::Up),
                    input.key_pressed(GameKey::Down),
                ) as i32,
            })
            &&& ctx.audio@ == a.with_sfx(Sfx::Cursor)
        } else {
            &&& r is Pending
            &&& self.phase == (DebugMenuPhase::Sub { menu, selection })
            &&& ctx.audio == ctx_before.audio
        }
    }

    /// What one poll makes of the debug menu and its context.
    pub open spec fn step(
        &self,
        before: &DebugMenu,
        ctx: &ModeContext,
        ctx_before: &ModeContext,
        r: Poll<DebugMenuEvent>,
    ) -> bool {
        &&& self.wf()
        &&& self.window == before.window
        &&& self.same_frame(before)
        &&& before.shows(ctx_before) && r is Pending ==> self.shows(ctx)
        &&& *ctx == (ModeContext { audio: ctx.audio, ..*ctx_before })
        &&& ctx.audio.wf()
        &&& match before.phase {
            DebugMenuPhase::Start => {
                &&& r is Pending
                &&& self.phase == (DebugMenuPhase::Top { selection: 0 })
                &&& ctx.audio == ctx_before.audio
            },
            DebugMenuPhase::Top { selection } => self.step_top(ctx, ctx_before, selection, r),
            DebugMenuPhase::Sub { menu, selection } => self.step_sub(
                ctx,
                ctx_before,
                menu,
                selection,
                r,
            ),
        }
    }

    fn poll_top(&mut self, mctx: &mut ModeContext, selection: i32) -> (r: Poll<DebugMenuEvent>)
        requires
            old(self).wf(),
            old(mctx).wf(),
            old(self).phase == (DebugMenuPhase::Top { selection }),
        ensures
            final(self).step(old(self), final(mctx), old(mctx), r),
    {
        if mctx.input.is_key_pressed(GameKey::Cancel) || mctx.input.is_key_pressed(
            GameKey::DebugMenu,
        ) {
            mctx.audio.play_sfx(Sfx::Cancel);
            self.phase = DebugMenuPhase::Start;
            Poll::Ready(DebugMenuEvent::Cancel)
        } else if mctx.input.is_key_pressed(GameKey::Confirm) {
            let menu = if selection == 2 {
                Some(DebugSubMenu::Battle)
            } else if selection == 3 {
                Some(DebugSubMenu::SetWeapon)
            } else if selection == 4 {
                Some(DebugSubMenu::SetArmor)
            } else if selection == 7 {
                Some(DebugSubMenu::StepCounts)
            } else if selection == 8 {
                Some(DebugSubMenu::Flags)
            } else if selection == 9 {
                Some(DebugSubMenu::Warp)
            } else {
                None
            };
            match menu {
                Some(menu) => {
                    mctx.audio.play_sfx(Sfx::Confirm);
                    self.open_sub_menu(mctx, menu);
                    Poll::Pending
                },
                None => {
                    let choice = if selection == 0 {
                        DebugMenuEvent::Cancel
                    } else if selection == 1 {
                        DebugMenuEvent::GainLevel
                    } else if selection == 5 {
                        DebugMenuEvent::GetItems
                    } else if selection == 6 {
                        DebugMenuEvent::LearnAllMagic
                    } else {
                        DebugMenuEvent::Quit
                    };
                    mctx.audio.play_sfx(
                        if selection == 0 {
                            Sfx::Cancel
                        } else {
                            Sfx::Confirm
                        },
                    );
                    self.phase = DebugMenuPhase::Start;
                    Poll::Ready(choice)
                },
            }
        } else if mctx.input.is_key_pressed(GameKey::Up) || mctx.input.is_key_pressed(
            GameKey::Down,
        ) {
            mctx.audio.play_sfx(Sfx::Cursor);
            let moved = move_entry(
                selection,
                TOP_ENTRIES,
                mctx.input.is_key_pressed(GameKey::Up),
                mctx.input.is_key_pressed(GameKey::Down),
            );
            self.update_cursor_pos(moved);
            self.phase = DebugMenuPhase::Top { selection: moved };
            Poll::Pending
        } else {
            Poll::Pending
        }
    }

    fn poll_sub(&mut self, mctx: &mut ModeContext, menu: DebugSubMenu, selection: i32) -> (r: Poll<
        DebugMenuEvent,
    >)
        requires
            old(self).wf(),
            old(mctx).wf(),
            old(self).phase == (DebugMenuPhase::Sub { menu, selection }),
        ensures
            final(self).step(old(self), final(mctx), old(mctx), r),
    {
        let confirm = mctx.input.is_key_pressed(GameKey::Confirm);
        if mctx.input.is_key_pressed(GameKey::Cancel) || (confirm && selection == 0) {
            mctx.audio.play_sfx(Sfx::Cancel);
            self.text.set_text(debug_menu_text());
            self.update_cursor_pos(menu.opened_by());
            self.phase = DebugMenuPhase::Top { selection: menu.opened_by() };
            Poll::Pending
        } else if confirm {
            mctx.audio.play_sfx(Sfx::Confirm);
            self.phase = DebugMenuPhase::Start;
            Poll::Ready(menu.event_at(selection))
        } else if mctx.input.is_key_pressed(GameKey::Up) || mctx.input.is_key_pressed(
            GameKey::Down,
        ) {
            mctx.audio.play_sfx(Sfx::Cursor);
            let moved = move_entry(
                selection,
                menu.entries(),
                mctx.input.is_key_pressed(GameKey::Up),
                mctx.input.is_key_pressed(GameKey::Down),
            );
            self.update_cursor_pos(moved);
            self.phase = DebugMenuPhase::Sub { menu, selection: moved };
            Poll::Pending
        } else {
            Poll::Pending
        }
    }

    /// Runs the debug menu up to its next suspension point or to its end.
    pub fn update(&mut self, mctx: &mut ModeContext) -> (r: Poll<DebugMenuEvent>)
        requires
            old(self).wf(),
            old(mctx).wf(),
        ensures
            final(self).step(old(self), final(mctx), old(mctx), r),
            final(mctx).wf(),
    {
        match self.phase {
            DebugMenuPhase::Start => {
                self.text.set_text(debug_menu_text());
                self.phase = DebugMenuPhase::Top { selection: 0 };
                Poll::Pending
            },
            DebugMenuPhase::Top { selection } => self.poll_top(mctx, selection),
            DebugMenuPhase::Sub { menu, selection } => self.poll_sub(mctx, menu, selection),
        }
    }
}

} // verus!
