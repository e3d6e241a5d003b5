//! The main menu: the player's status, and magic and items to use
//! outside of battle.
use vstd::prelude::*;
use crate::async_utils::Poll;
use crate::contexts::ModeContext;
use crate::draw::{lemma_concat_assoc, views, DrawCommand, DrawCommandView};
use crate::input::GameKey;
use crate::meter::Meter;
use crate::modes::battle::{cursor_str, half_up, item_effect, restored, three_tenths_up};
use crate::modes::menu::{entry_moved, move_entry};
use crate::numeric::{add_clamped, clamp_i32, min_i32, sub_clamped};
use crate::progress::{player_rank, spec_player_rank, Item, ItemSlot, Magic, Progress, NUM_SLOTS};
use crate::resources::Resources;
use crate::strings::{
    centered, chars_of, decimal, pad_left, pad_right, clipped, push_centered, push_chars,
    push_decimal, push_decimal_right_aligned, push_left_aligned, push_right_aligned, push_str,
    string_from_chars,
};
use crate::text::Text;
use crate::window::Window;

verus! {

pub const TOP_X: i32 = 47;

pub const TOP_Y: i32 = 25;

pub const TOP_WIDTH: i32 = 166;

pub const TOP_HEIGHT: i32 = 45;

pub const BOTTOM_X: i32 = 47;

pub const BOTTOM_Y: i32 = 70;

pub const BOTTOM_WIDTH: i32 = 166;

pub const BOTTOM_HEIGHT: i32 = 80;

pub const MENU_X: i32 = 213;

pub const MENU_Y: i32 = 25;

pub const MENU_WIDTH: i32 = 60;

pub const MENU_HEIGHT: i32 = 56;

/// Number of entries of the menu: return, magic and item.
pub const TOP_ENTRIES: i32 = 3;

/// Number of entries of the menus of magic and of items: back and the four slots.
pub const SLOT_ENTRIES: i32 = 5;

/// Where an update of the main menu stands.
#[derive(Clone, Copy, Debug, PartialEq, Eq, Structural)]
pub enum MainMenuPhase {
    /// No update is in progress.
    Start,
    Top { selection: i32 },
    Magic { selection: i32 },
    Item { selection: i32 },
}

pub struct MainMenu {
    pub top_window: Window,
    pub name_text: Text,
    pub level_text: Text,
    pub exp_meter: Meter,
    pub hp_text: Text,
    pub hp_meter: Meter,
    pub mp_text: Text,
    pub mp_meter: Meter,
    pub bottom_window: Window,
    pub bottom_text: Text,
    pub bottom_line: Text,
    pub bottom_cursor: Text,
    pub bottom_cursor_visible: bool,
    pub menu_window: Window,
    pub menu_text: Text,
    pub menu_cursor: Text,
    pub phase: MainMenuPhase,
}

#[derive(Clone, Copy, Debug, PartialEq, Eq, Structural)]
pub enum MainMenuEvent {
    Done,
}

/// The player's name with the rank below it, centered in eleven columns.
pub open spec fn name_label(level: i32) -> Seq<char> {
    "Coric\n "@ + centered(spec_player_rank(level), 11)
}

pub open spec fn level_label(level: i32) -> Seq<char> {
    "Level "@ + decimal(level as int)
}

/// Points of a kind and their largest value, each in three columns.
pub open spec fn points_label(kind: Seq<char>, points: i32, max: i32) -> Seq<char> {
    kind + " "@ + pad_left(decimal(points as int), 3) + " / "@ + pad_left(decimal(max as int), 3)
}

/// A line of the status: a name, and a value flush right in fourteen columns.
pub open spec fn status_entry(name: Seq<char>, value: Seq<char>) -> Seq<char> {
    name + pad_left(value, 14)
}

/// The name of a piece of equipment, or a word for none.
pub open spec fn equipment_name(name: Option<Seq<char>>) -> Seq<char> {
    match name {
        Some(n) => n,
        None => "(none)"@,
    }
}

/// Weapon, armor and experience of the player, line by line.
pub open spec fn status_text(p: &Progress) -> Seq<char> {
    status_entry(
        "    Weapon:"@,
        equipment_name(
            match p.weapon {
                Some(w) => Some(w.name@),
                None => None,
            },
        ),
    ) + status_entry("\n    Attack:"@, decimal(p.attack as int)) + status_entry(
        "\n\n     Armor:"@,
        equipment_name(
            match p.armor {
                Some(a) => Some(a.name@),
                None => None,
            },
        ),
    ) + status_entry("\n   Defense:"@, decimal(p.defense as int)) + status_entry(
        "\n\nExperience:"@,
        decimal(p.exp as int),
    ) + status_entry(
        "\nNext Level:"@,
        decimal(
            match p.spec_next_exp() {
                Some(next) => next as int,
                None => 0,
            },
        ),
    )
}

/// The entries of a menu of back and four slots, one a line, each slot
/// in twenty-three columns.
pub open spec fn slot_menu(entries: Seq<Seq<char>>) -> Seq<char>
    recommends
        entries.len() == 4,
{
    " Back\n"@ + "\n "@ + pad_right(clipped(entries[0], 23), 23) + "\n "@ + pad_right(
        clipped(entries[1], 23),
        23,
    ) + "\n "@ + pad_right(clipped(entries[2], 23), 23) + "\n "@ + pad_right(
        clipped(entries[3], 23),
        23,
    )
}

fn make_name_label(level: i32) -> (s: String)
    ensures
        s@ == name_label(level),
{
    let mut out: Vec<char> = Vec::new();
    push_str(&mut out, "Coric\n ");
    let rank = chars_of(player_rank(level));
    push_centered(&mut out, &rank, 11);
    string_from_chars(&out)
}

fn make_level_label(level: i32) -> (s: String)
    ensures
        s@ == level_label(level),
{
    let mut out: Vec<char> = Vec::new();
    push_str(&mut out, "Level ");
    push_decimal(&mut out, level as i64);
    string_from_chars(&out)
}

fn make_points_label(kind: &str, points: i32, max: i32) -> (s: String)
    ensures
        s@ == points_label(kind@, points, max),
{
    let mut out: Vec<char> = Vec::new();
    push_str(&mut out, kind);
    push_str(&mut out, " ");
    push_decimal_right_aligned(&mut out, points as i64, 3);
    push_str(&mut out, " / ");
    push_decimal_right_aligned(&mut out, max as i64, 3);
    string_from_chars(&out)
}

fn push_status_entry(out: &mut Vec<char>, name: &str, value: &Vec<char>)
    ensures
        final(out)@ == old(out)@ + status_entry(name@, value@),
{
    push_str(out, name);
    push_right_aligned(out, value, 14);
    assert(final(out)@ =~= old(out)@ + status_entry(name@, value@));
}

fn make_status_text(p: &Progress) -> (s: String)
    requires
        p.level >= 1,
    ensures
        s@ == status_text(p),
{
    let mut out: Vec<char> = Vec::new();
    let weapon = match &p.weapon {
        Some(w) => chars_of(w.name.as_str()),
        None => chars_of("(none)"),
    };
    push_status_entry(&mut out, "    Weapon:", &weapon);
    let attack = crate::strings::decimal_of(p.attack as i64);
    push_status_entry(&mut out, "\n    Attack:", &attack);
    let armor = match &p.armor {
        Some(a) => chars_of(a.name.as_str()),
        None => chars_of("(none)"),
    };
    push_status_entry(&mut out, "\n\n     Armor:", &armor);
    let defense = crate::strings::decimal_of(p.defense as i64);
    push_status_entry(&mut out, "\n   Defense:", &defense);
    let exp = crate::strings::decimal_of(p.exp as i64);
    push_status_entry(&mut out, "\n\nExperience:", &exp);
    let next = crate::strings::decimal_of(
        match p.next_exp() {
            Some(next) => next as i64,
            None => 0,
        },
    );
    push_status_entry(&mut out, "\nNext Level:", &next);
    string_from_chars(&out)
}

fn make_slot_menu(a: &str, b: &str, c: &str, d: &str) -> (s: String)
    ensures
        s@ == slot_menu(seq![a@, b@, c@, d@]),
{
    let mut out: Vec<char> = Vec::new();
    push_str(&mut out, " Back\n");
    push_str(&mut out, "\n ");
    let entry = chars_of(a);
    push_left_aligned(&mut out, &entry, 23, 23);
    push_str(&mut out, "\n ");
    let entry = chars_of(b);
    push_left_aligned(&mut out, &entry, 23, 23);
    push_str(&mut out, "\n ");
    let entry = chars_of(c);
    push_left_aligned(&mut out, &entry, 23, 23);
    push_str(&mut out, "\n ");
    let entry = chars_of(d);
    push_left_aligned(&mut out, &entry, 23, 23);
    string_from_chars(&out)
}

impl MainMenu {
    pub open spec fn wf(&self) -> bool {
        &&& self.name_text.wf()
        &&& self.level_text.wf()
        &&& self.exp_meter.wf()
        &&& self.hp_text.wf()
        &&& self.hp_meter.wf()
        &&& self.mp_text.wf()
        &&& self.mp_meter.wf()
        &&& self.bottom_text.wf()
        &&& self.bottom_line.wf()
        &&& self.bottom_cursor.wf()
        &&& self.menu_text.wf()
        &&& self.menu_cursor.wf()
        &&& match self.phase {
            MainMenuPhase::Start => true,
            MainMenuPhase::Top { selection } => 0 <= selection < TOP_ENTRIES,
            MainMenuPhase::Magic { selection } => 0 <= selection < SLOT_ENTRIES,
            MainMenuPhase::Item { selection } => 0 <= selection < SLOT_ENTRIES,
        }
    }

    /// What a menu holds that was made for a player with the given
    /// progress and has not been updated: the windows and their texts at
    /// their places, the meters filled as far as the player has points,
    /// and the bottom window empty.
    pub open spec fn fresh(&self, res: &Resources, progress: &Progress) -> bool {
        let t = &res.window_textures;
        let font = &res.font;
        let next = match progress.spec_next_exp() {
            Some(next) => next as int,
            None => 0,
        };
        let cursor = seq![crate::text::CURSOR_CHAR];
        &&& self.phase == MainMenuPhase::Start
        &&& !self.bottom_cursor_visible
        &&& self.top_window.placed(t, TOP_X, TOP_Y, TOP_WIDTH, TOP_HEIGHT)
        &&& self.name_text.written(font, 55, 33, name_label(progress.level))
        &&& self.level_text.written(font, 55, 49, level_label(progress.level))
        &&& self.exp_meter.set_up(
            55,
            58,
            72,
            seq![255u8, 128u8, 50u8],
            crate::numeric::clamp(
                if next > 0 {
                    progress.exp as int
                } else {
                    1
                },
                0,
                crate::numeric::max(next, 1),
            ),
            crate::numeric::max(next, 1),
        )
        &&& self.hp_text.written(font, 133, 33, points_label("HP"@, progress.hp, progress.max_hp))
        &&& self.hp_meter.set_up(
            133,
            42,
            72,
            seq![0u8, 192u8, 0u8],
            crate::numeric::clamp(
                progress.max_hp as int,
                0,
                crate::numeric::max(progress.max_hp as int, 1),
            ),
            crate::numeric::max(progress.max_hp as int, 1),
        )
        &&& self.mp_text.written(font, 133, 49, points_label("MP"@, progress.mp, progress.max_mp))
        &&& self.mp_meter.set_up(
            133,
            58,
            72,
            seq![0u8, 192u8, 192u8],
            crate::numeric::clamp(
                progress.max_mp as int,
                0,
                crate::numeric::max(progress.max_mp as int, 1),
            ),
            crate::numeric::max(progress.max_mp as int, 1),
        )
        &&& self.bottom_window.placed(t, BOTTOM_X, BOTTOM_Y, BOTTOM_WIDTH, BOTTOM_HEIGHT)
        &&& self.bottom_text.written(font, 55, 78, Seq::empty())
        &&& self.bottom_line.written(font, 61, 134, Seq::empty())
        &&& self.bottom_cursor.written(font, 55, 78, cursor)
        &&& self.menu_window.placed(t, MENU_X, MENU_Y, MENU_WIDTH, MENU_HEIGHT)
        &&& self.menu_text.written(font, 227, 33, "Return\n\nMagic\n\nItem"@)
        &&& self.menu_cursor.written(font, 221, 33, cursor)
    }

    /// The main menu for a player with the given progress.
    pub fn new(res: &Resources, progress: &Progress) -> (m: MainMenu)
        requires
            res.window_textures.wf(),
            progress.level >= 1,
        ensures
            m.wf(),
            m.phase == MainMenuPhase::Start,
            !m.bottom_cursor_visible,
            m.name_text.holds(name_label(progress.level), m.name_text.glyphs().len()),
            m.level_text.holds(level_label(progress.level), m.level_text.glyphs().len()),
            m.hp_text.holds(
                points_label("HP"@, progress.hp, progress.max_hp),
                m.hp_text.glyphs().len(),
            ),
            m.mp_text.holds(
                points_label("MP"@, progress.mp, progress.max_mp),
                m.mp_text.glyphs().len(),
            ),
            m.hp_meter.max_value() == crate::numeric::max(progress.max_hp as int, 1),
            m.mp_meter.max_value() == crate::numeric::max(progress.max_mp as int, 1),
            m.fresh(res, progress),
            m.shows(progress),
    {
        proof {
            reveal_strlit("");
            assert(""@ =~= Seq::<char>::empty());
        }
        let textures = &res.window_textures;
        let font = &res.font;
        let name = make_name_label(progress.level);
        let level = make_level_label(progress.level);
        let next_exp: i32 = match progress.next_exp() {
            Some(next) => next,
            None => 0,
        };
        let mut exp_meter = Meter::new(TOP_X + 8, TOP_Y + 8 + 3 * 8 + 1, 12 * 6, [255, 128, 50], next_exp);
        exp_meter.set_value(
            if next_exp > 0 {
                progress.exp
            } else {
                1
            },
        );
        let hp = make_points_label("HP", progress.hp, progress.max_hp);
        let mp = make_points_label("MP", progress.mp, progress.max_mp);
        MainMenu {
            top_window: Window::new(textures, TOP_X, TOP_Y, TOP_WIDTH, TOP_HEIGHT),
            name_text: Text::from_str(font, TOP_X + 8, TOP_Y + 8, name.as_str()),
            level_text: Text::from_str(font, TOP_X + 8, TOP_Y + 8 + 2 * 8, level.as_str()),
            exp_meter,
            hp_text: Text::from_str(font, TOP_X + 8 + 13 * 6, TOP_Y + 8, hp.as_str()),
            hp_meter: Meter::new(
                TOP_X + 8 + 13 * 6,
                TOP_Y + 8 + 8 + 1,
                12 * 6,
                [0, 192, 0],
                progress.max_hp,
            ),
            mp_text: Text::from_str(font, TOP_X + 8 + 13 * 6, TOP_Y + 8 + 2 * 8, mp.as_str()),
            mp_meter: Meter::new(
                TOP_X + 8 + 13 * 6,
                TOP_Y + 8 + 3 * 8 + 1,
                12 * 6,
                [0, 192, 192],
                progress.max_mp,
            ),
            bottom_window: Window::new(textures, BOTTOM_X, BOTTOM_Y, BOTTOM_WIDTH, BOTTOM_HEIGHT),
            bottom_text: Text::new(font, BOTTOM_X + 8, BOTTOM_Y + 8),
            bottom_line: Text::new(font, BOTTOM_X + 8 + 6, BOTTOM_Y + BOTTOM_HEIGHT - 8 - 8),
            bottom_cursor: Text::from_str(font, BOTTOM_X + 8, BOTTOM_Y + 8, cursor_str()),
            bottom_cursor_visible: false,
            menu_window: Window::new(textures, MENU_X, MENU_Y, MENU_WIDTH, MENU_HEIGHT),
            menu_text: Text::from_str(font, MENU_X + 14, MENU_Y + 8, "Return\n\nMagic\n\nItem"),
            menu_cursor: Text::from_str(font, MENU_X + 8, MENU_Y + 8, cursor_str()),
            phase: MainMenuPhase::Start,
        }
    }

    /// The window at the top: name, level, experience, hit points and magic points.
    pub open spec fn top_drawn(&self) -> Seq<DrawCommandView> {
        self.top_window.drawn() + self.name_text.drawn() + self.level_text.drawn()
            + self.exp_meter.drawn() + self.hp_text.drawn() + self.hp_meter.drawn()
            + self.mp_text.drawn() + self.mp_meter.drawn()
    }

    /// The window at the bottom: the status or a menu, with its cursor.
    pub open spec fn bottom_drawn(&self) -> Seq<DrawCommandView> {
        self.bottom_window.drawn() + self.bottom_text.drawn() + self.bottom_line.drawn()
            + if self.bottom_cursor_visible {
            self.bottom_cursor.drawn()
        } else {
            Seq::empty()
        }
    }

    /// The window of the menu with its cursor.
    pub open spec fn menu_drawn(&self) -> Seq<DrawCommandView> {
        self.menu_window.drawn() + self.menu_text.drawn() + self.menu_cursor.drawn()
    }

    pub open spec fn drawn(&self) -> Seq<DrawCommandView> {
        self.top_drawn() + self.bottom_drawn() + self.menu_drawn()
    }

    fn draw_top(&self, out: &mut Vec<DrawCommand>)
        requires
            self.wf(),
        ensures
            views(final(out)@) == views(old(out)@) + self.top_drawn(),
    {
        let ghost start = views(out@);
        self.top_window.draw(out);
        let ghost drawn = self.top_window.drawn();
        self.name_text.draw(out);
        proof {
            lemma_concat_assoc(start, drawn, self.name_text.drawn());
        }
        let ghost drawn = drawn + self.name_text.drawn();
        self.level_text.draw(out);
        proof {
            lemma_concat_assoc(start, drawn, self.level_text.drawn());
        }
        let ghost drawn = drawn + self.level_text.drawn();
        self.exp_meter.draw(out);
        proof {
            lemma_concat_assoc(start, drawn, self.exp_meter.drawn());
        }
        let ghost drawn = drawn + self.exp_meter.drawn();
        self.hp_text.draw(out);
        proof {
            lemma_concat_assoc(start, drawn, self.hp_text.drawn());
        }
        let ghost drawn = drawn + self.hp_text.drawn();
        self.hp_meter.draw(out);
        proof {
            lemma_concat_assoc(start, drawn, self.hp_meter.drawn());
        }
        let ghost drawn = drawn + self.hp_meter.drawn();
        self.mp_text.draw(out);
        proof {
            lemma_concat_assoc(start, drawn, self.mp_text.drawn());
        }
        let ghost drawn = drawn + self.mp_text.drawn();
        self.mp_meter.draw(out);
        proof {
            lemma_concat_assoc(start, drawn, self.mp_meter.drawn());
        }
    }

    fn draw_bottom(&self, out: &mut Vec<DrawCommand>)
        requires
            self.wf(),
        ensures
            views(final(out)@) == views(old(out)@) + self.bottom_drawn(),
    {
        self.bottom_window.draw(out);
        self.bottom_text.draw(out);
        self.bottom_line.draw(out);
        if self.bottom_cursor_visible {
            self.bottom_cursor.draw(out);
        }
        assert(views(final(out)@) =~= views(old(out)@) + self.bottom_drawn());
    }

    fn draw_menu(&self, out: &mut Vec<DrawCommand>)
        requires
            self.wf(),
        ensures
            views(final(out)@) == views(old(out)@) + self.menu_drawn(),
    {
        self.menu_window.draw(out);
        self.menu_text.draw(out);
        self.menu_cursor.draw(out);
        assert(views(final(out)@) =~= views(old(out)@) + self.menu_drawn());
    }

    pub fn draw(&self, out: &mut Vec<DrawCommand>)
        requires
            self.wf(),
        ensures
            views(final(out)@) == views(old(out)@) + self.drawn(),
    {
        let ghost start = views(out@);
        self.draw_top(out);
        self.draw_bottom(out);
        proof {
            lemma_concat_assoc(start, self.top_drawn(), self.bottom_drawn());
        }
        self.draw_menu(out);
        proof {
            lemma_concat_assoc(start, self.top_drawn() + self.bottom_drawn(), self.menu_drawn());
        }
    }

    /// The widgets are sound, whatever the phase.
    pub open spec fn widgets_wf(&self) -> bool {
        &&& self.name_text.wf()
        &&& self.level_text.wf()
        &&& self.exp_meter.wf()
        &&& self.hp_text.wf()
        &&& self.hp_meter.wf()
        &&& self.mp_text.wf()
        &&& self.mp_meter.wf()
        &&& self.bottom_text.wf()
        &&& self.bottom_line.wf()
        &&& self.bottom_cursor.wf()
        &&& self.menu_text.wf()
        &&& self.menu_cursor.wf()
    }

    /// Where the cursor of the menu stands beside an entry.
    pub open spec fn menu_cursor_place(selection: i32) -> (i32, i32) {
        (221i32, (33 + 16 * selection) as i32)
    }

    /// Where the cursor of the bottom window stands beside an entry of a
    /// menu of slots: the slots follow an empty line below the first entry.
    pub open spec fn slot_cursor_place(selection: i32) -> (i32, i32) {
        (
            55i32,
            (78 + if selection == 0 {
                0
            } else {
                (selection + 1) * 8
            }) as i32,
        )
    }

    /// The lines of the player's magic in the menu.
    pub open spec fn magic_entries(p: &Progress) -> Seq<Seq<char>> {
        seq![
            p.magic@[0].spec_main_menu_entry(),
            p.magic@[1].spec_main_menu_entry(),
            p.magic@[2].spec_main_menu_entry(),
            p.magic@[3].spec_main_menu_entry(),
        ]
    }

    /// The lines of the player's items in the menu.
    pub open spec fn item_entries(p: &Progress) -> Seq<Seq<char>> {
        seq![
            p.items@[0].spec_main_menu_entry(),
            p.items@[1].spec_main_menu_entry(),
            p.items@[2].spec_main_menu_entry(),
            p.items@[3].spec_main_menu_entry(),
        ]
    }

    /// The hit points and magic points of the player are shown as they are.
    pub open spec fn points_shown(&self, p: &Progress) -> bool {
        &&& self.hp_text.reads(points_label("HP"@, p.hp, p.max_hp))
        &&& self.mp_text.reads(points_label("MP"@, p.mp, p.max_mp))
        &&& self.hp_meter.value() == crate::numeric::clamp(
            p.hp as int,
            0,
            self.hp_meter.max_value() as int,
        )
        &&& self.mp_meter.value() == crate::numeric::clamp(
            p.mp as int,
            0,
            self.mp_meter.max_value() as int,
        )
    }

    /// The menu shows what goes with its phase and the progress of the
    /// player: at the top the status, in the menus of magic and of items
    /// their entries, the cursor beside the entry that is selected, and
    /// below them what that entry does.
    pub open spec fn shows(&self, p: &Progress) -> bool {
        match self.phase {
            MainMenuPhase::Start => !self.bottom_cursor_visible && self.bottom_line.reads(""@),
            MainMenuPhase::Top { selection } => {
                &&& self.points_shown(p)
                &&& !self.bottom_cursor_visible
                &&& self.bottom_text.reads(status_text(p))
                &&& self.bottom_line.reads(""@)
                &&& self.menu_cursor.offset() == MainMenu::menu_cursor_place(selection)
            },
            MainMenuPhase::Magic { selection } => {
                &&& self.points_shown(p)
                &&& self.bottom_cursor_visible
                &&& self.bottom_text.reads(slot_menu(MainMenu::magic_entries(p)))
                &&& self.bottom_line.reads(
                    if selection == 0 {
                        ""@
                    } else {
                        p.magic@[selection - 1].spec_description()
                    },
                )
                &&& self.bottom_cursor.offset() == MainMenu::slot_cursor_place(selection)
            },
            MainMenuPhase::Item { selection } => {
                &&& self.points_shown(p)
                &&& self.bottom_cursor_visible
                &&& self.bottom_text.reads(slot_menu(MainMenu::item_entries(p)))
                &&& self.bottom_line.reads(
                    if selection == 0 {
                        ""@
                    } else {
                        p.items@[selection - 1].spec_description()
                    },
                )
                &&& self.bottom_cursor.offset() == MainMenu::slot_cursor_place(selection)
            },
        }
    }

    /// What no update changes: the windows, the texts of name, level and
    /// menu, the meter of experience, the places of the other texts and
    /// meters, and the marks of the cursors.
    pub open spec fn same_frame(&self, before: &MainMenu) -> bool {
        &&& self.top_window == before.top_window
        &&& self.name_text == before.name_text
        &&& self.level_text == before.level_text
        &&& self.exp_meter == before.exp_meter
        &&& self.bottom_window == before.bottom_window
        &&& self.menu_window == before.menu_window
        &&& self.menu_text == before.menu_text
        &&& self.hp_text.offset() == before.hp_text.offset()
        &&& self.hp_text.cell() == before.hp_text.cell()
        &&& self.mp_text.offset() == before.mp_text.offset()
        &&& self.mp_text.cell() == before.mp_text.cell()
        &&& self.hp_meter.same_place(&before.hp_meter)
        &&& self.hp_meter.max_value() == before.hp_meter.max_value()
        &&& self.mp_meter.same_place(&before.mp_meter)
        &&& self.mp_meter.max_value() == before.mp_meter.max_value()
        &&& self.bottom_text.offset() == before.bottom_text.offset()
        &&& self.bottom_text.cell() == before.bottom_text.cell()
        &&& self.bottom_line.offset() == before.bottom_line.offset()
        &&& self.bottom_line.cell() == before.bottom_line.cell()
        &&& self.bottom_cursor.glyphs() == before.bottom_cursor.glyphs()
        &&& self.bottom_cursor.cell() == before.bottom_cursor.cell()
        &&& self.bottom_cursor.size() == before.bottom_cursor.size()
        &&& self.bottom_cursor.shown() == before.bottom_cursor.shown()
        &&& self.menu_cursor.glyphs() == before.menu_cursor.glyphs()
        &&& self.menu_cursor.cell() == before.menu_cursor.cell()
        &&& self.menu_cursor.size() == before.menu_cursor.size()
        &&& self.menu_cursor.shown() == before.menu_cursor.shown()
    }

    fn update_hp_and_mp(&mut self, progress: &Progress)
        requires
            old(self).widgets_wf(),
        ensures
            final(self).widgets_wf(),
            final(self).phase == old(self).phase,
            final(self).hp_meter.value() == crate::numeric::clamp(
                progress.hp as int,
                0,
                old(self).hp_meter.max_value() as int,
            ),
            final(self).mp_meter.value() == crate::numeric::clamp(
                progress.mp as int,
                0,
                old(self).mp_meter.max_value() as int,
            ),
            final(self).hp_text.holds(
                points_label("HP"@, progress.hp, progress.max_hp),
                final(self).hp_text.glyphs().len(),
            ),
            final(self).mp_text.holds(
                points_label("MP"@, progress.mp, progress.max_mp),
                final(self).mp_text.glyphs().len(),
            ),
            final(self).points_shown(progress),
            final(self).same_frame(old(self)),
            *final(self) == (MainMenu {
                hp_text: final(self).hp_text,
                hp_meter: final(self).hp_meter,
                mp_text: final(self).mp_text,
                mp_meter: final(self).mp_meter,
                ..*old(self)
            }),
    {
        let hp = make_points_label("HP", progress.hp, progress.max_hp);
        self.hp_text.set_text(hp.as_str());
        self.hp_meter.set_value(progress.hp);
        let mp = make_points_label("MP", progress.mp, progress.max_mp);
        self.mp_text.set_text(mp.as_str());
        self.mp_meter.set_value(progress.mp);
    }

    fn place_bottom_cursor(&mut self, selection: i32)
        requires
            old(self).widgets_wf(),
            0 <= selection < SLOT_ENTRIES,
        ensures
            final(self).widgets_wf(),
            final(self).phase == old(self).phase,
            final(self).same_frame(old(self)),
            final(self).bottom_cursor.offset() == MainMenu::slot_cursor_place(selection),
            *final(self) == (MainMenu { bottom_cursor: final(self).bottom_cursor, ..*old(self) }),
    {
        self.bottom_cursor.set_offset(
            BOTTOM_X + 8,
            BOTTOM_Y + 8 + if selection == 0 {
                0
            } else {
                (selection + 1) * 8
            },
        );
    }

    fn place_menu_cursor(&mut self, selection: i32)
        requires
            old(self).widgets_wf(),
            0 <= selection < TOP_ENTRIES,
        ensures
            final(self).widgets_wf(),
            final(self).phase == old(self).phase,
            final(self).same_frame(old(self)),
            final(self).menu_cursor.offset() == MainMenu::menu_cursor_place(selection),
            *final(self) == (MainMenu { menu_cursor: final(self).menu_cursor, ..*old(self) }),
    {
        self.menu_cursor.set_offset(MENU_X + 8, MENU_Y + 8 + 16 * selection);
    }

    fn update_bottom_text_for_status(&mut self, progress: &Progress)
        requires
            old(self).widgets_wf(),
            progress.level >= 1,
        ensures
            final(self).widgets_wf(),
            final(self).phase == old(self).phase,
            final(self).bottom_text.reads(status_text(progress)),
            final(self).same_frame(old(self)),
            *final(self) == (MainMenu { bottom_text: final(self).bottom_text, ..*old(self) }),
    {
        let text = make_status_text(progress);
        self.bottom_text.set_text(text.as_str());
    }

    fn update_bottom_text_for_item_menu(&mut self, progress: &Progress)
        requires
            old(self).widgets_wf(),
            progress.wf(),
        ensures
            final(self).widgets_wf(),
            final(self).phase == old(self).phase,
            final(self).bottom_text.reads(slot_menu(MainMenu::item_entries(progress))),
            final(self).same_frame(old(self)),
            *final(self) == (MainMenu { bottom_text: final(self).bottom_text, ..*old(self) }),
    {
        let a = progress.items[0].main_menu_entry();
        let b = progress.items[1].main_menu_entry();
        let c = progress.items[2].main_menu_entry();
        let d = progress.items[3].main_menu_entry();
        let text = make_slot_menu(a.as_str(), b.as_str(), c.as_str(), d.as_str());
        self.bottom_text.set_text(text.as_str());
    }

    fn update_bottom_text_for_magic_menu(&mut self, progress: &Progress)
        requires
            old(self).widgets_wf(),
            progress.wf(),
        ensures
            final(self).widgets_wf(),
            final(self).phase == old(self).phase,
            final(self).bottom_text.reads(slot_menu(MainMenu::magic_entries(progress))),
            final(self).same_frame(old(self)),
            *final(self) == (MainMenu { bottom_text: final(self).bottom_text, ..*old(self) }),
    {
        let a = progress.magic[0].main_menu_entry();
        let b = progress.magic[1].main_menu_entry();
        let c = progress.magic[2].main_menu_entry();
        let d = progress.magic[3].main_menu_entry();
        let text = make_slot_menu(a.as_str(), b.as_str(), c.as_str(), d.as_str());
        self.bottom_text.set_text(text.as_str());
    }

    fn update_bottom_line_for_item_menu(&mut self, progress: &Progress, selection: i32)
        requires
            old(self).widgets_wf(),
            progress.wf(),
            0 <= selection < SLOT_ENTRIES,
        ensures
            final(self).widgets_wf(),
            final(self).phase == old(self).phase,
            final(self).bottom_line.reads(
                if selection == 0 {
                    ""@
                } else {
                    progress.items@[selection - 1].spec_description()
                },
            ),
            final(self).same_frame(old(self)),
            *final(self) == (MainMenu { bottom_line: final(self).bottom_line, ..*old(self) }),
    {
        self.bottom_line.set_text(
            if selection == 0 {
                ""
            } else {
                progress.items[(selection - 1) as usize].description()
            },
        );
    }

    fn update_bottom_line_for_magic_menu(&mut self, progress: &Progress, selection: i32)
        requires
            old(self).widgets_wf(),
            progress.wf(),
            0 <= selection < SLOT_ENTRIES,
        ensures
            final(self).widgets_wf(),
            final(self).phase == old(self).phase,
            final(self).bottom_line.reads(
                if selection == 0 {
                    ""@
                } else {
                    progress.magic@[selection - 1].spec_description()
                },
            ),
            final(self).same_frame(old(self)),
            *final(self) == (MainMenu { bottom_line: final(self).bottom_line, ..*old(self) }),
    {
        self.bottom_line.set_text(
            if selection == 0 {
                ""
            } else {
                progress.magic[(selection - 1) as usize].description()
            },
        );
    }

    /// Back at the top of the menu at an entry, after a menu of its own was left.
    fn back_to_top(&mut self, progress: &Progress, selection: i32)
        requires
            old(self).widgets_wf(),
            progress.level >= 1,
            0 <= selection < TOP_ENTRIES,
        ensures
            final(self).wf(),
            final(self).phase == (MainMenuPhase::Top { selection }),
            !final(self).bottom_cursor_visible,
            final(self).same_frame(old(self)),
            old(self).points_shown(progress) ==> final(self).shows(progress),
    {
        self.update_bottom_text_for_status(progress);
        self.bottom_line.set_text("");
        self.place_menu_cursor(selection);
        self.bottom_cursor_visible = false;
        self.phase = MainMenuPhase::Top { selection };
    }

    /// The progress after the item of a slot was used from the menu: an
    /// item that restores hit points is used up where the player lacks
    /// some, and one that restores magic points likewise; else nothing
    /// changes.
    pub open spec fn item_used(p: &Progress, after: &Progress, choice: int) -> bool {
        let item = p.items@[choice].item;
        let effect = item_effect(item, p.max_hp, p.max_mp);
        let heals_hp = item == Item::Salve || item == Item::XSalve;
        let needed = if heals_hp {
            p.hp < p.max_hp
        } else {
            p.mp < p.max_mp
        };
        if needed {
            &&& *after == (Progress {
                items: after.items,
                hp: if heals_hp {
                    if item == Item::Salve {
                        restored(p.hp, p.max_hp, effect.0)
                    } else {
                        p.max_hp
                    }
                } else {
                    p.hp
                },
                mp: if heals_hp {
                    p.mp
                } else if item == Item::Tonic {
                    restored(p.mp, p.max_mp, effect.1)
                } else {
                    p.max_mp
                },
                ..*p
            })
            &&& after.items@ == p.items@.update(
                choice,
                ItemSlot { item, amount: clamp_i32(p.items@[choice].amount - 1) },
            )
        } else {
            &&& *after == (Progress { items: after.items, ..*p })
            &&& after.items@ == p.items@
        }
    }

    fn use_item(progress: &mut Progress, choice: usize)
        requires
            old(progress).wf(),
            choice < NUM_SLOTS,
        ensures
            final(progress).wf(),
            MainMenu::item_used(old(progress), final(progress), choice as int),
    {
        let item = progress.items[choice].item;
        let amount = progress.items[choice].amount;
        match item {
            Item::Salve => {
                if progress.hp < progress.max_hp {
                    progress.items[choice].amount = sub_clamped(amount, 1);
                    let heal_hp = crate::modes::battle::three_tenths(progress.max_hp);
                    progress.hp = min_i32(progress.max_hp, add_clamped(progress.hp, heal_hp));
                }
            },
            Item::XSalve => {
                if progress.hp < progress.max_hp {
                    progress.items[choice].amount = sub_clamped(amount, 1);
                    progress.hp = progress.max_hp;
                }
            },
            Item::Tonic => {
                if progress.mp < progress.max_mp {
                    progress.items[choice].amount = sub_clamped(amount, 1);
                    let heal_mp = crate::modes::battle::three_tenths(progress.max_mp);
                    progress.mp = min_i32(progress.max_mp, add_clamped(progress.mp, heal_mp));
                }
            },
            Item::XTonic => {
                if progress.mp < progress.max_mp {
                    progress.items[choice].amount = sub_clamped(amount, 1);
                    progress.mp = progress.max_mp;
                }
            },
        }
        assert(progress.items@ =~= old(progress).items@.update(
            choice as int,
            ItemSlot { item, amount: progress.items@[choice as int].amount },
        ));
    }

    /// The progress after the magic of a slot was cast from the menu:
    /// only the magic that heals does anything, where the player knows it,
    /// has the magic points, and lacks hit points.
    pub open spec fn magic_cast(p: &Progress, choice: int) -> Progress {
        let slot = p.magic@[choice];
        if slot.known && slot.magic == Magic::Heal && p.mp >= slot.magic.mp_cost() && p.hp
            < p.max_hp {
            Progress {
                mp: clamp_i32(p.mp - slot.magic.mp_cost()),
                hp: restored(p.hp, p.max_hp, half_up(p.max_hp)),
                ..*p
            }
        } else {
            *p
        }
    }

    fn cast_magic(progress: &mut Progress, choice: usize)
        requires
            old(progress).wf(),
            choice < NUM_SLOTS,
        ensures
            *final(progress) == MainMenu::magic_cast(old(progress), choice as int),
    {
        let known = progress.magic[choice].known;
        let magic = progress.magic[choice].magic;
        if known && magic == Magic::Heal && progress.mp >= magic.mp_cost() && progress.hp
            < progress.max_hp {
            progress.mp = sub_clamped(progress.mp, magic.mp_cost());
            let heal_amount = crate::modes::battle::half(progress.max_hp);
            progress.hp = min_i32(progress.max_hp, add_clamped(progress.hp, heal_amount));
        }
    }

    /// Nothing changed but the player's progress.
    pub open spec fn only_progress(ctx: &ModeContext, before: &ModeContext) -> bool {
        *ctx == (ModeContext { progress: ctx.progress, ..*before })
    }

    /// What one poll makes of the main menu and its context.
    ///
    /// At the top, cancel and return end the update, and magic and item
    /// open their menus. In those, cancel and back lead back to the top,
    /// confirm casts the magic or uses the item of the entry, and up and
    /// down move through the entries.
    pub open spec fn step(
        &self,
        before: &MainMenu,
        ctx: &ModeContext,
        ctx_before: &ModeContext,
        r: Poll<MainMenuEvent>,
    ) -> bool {
        let input = &ctx_before.input;
        let up = input.key_pressed(GameKey::Up);
        let down = input.key_pressed(GameKey::Down);
        &&& self.wf()
        &&& MainMenu::only_progress(ctx, ctx_before)
        &&& self.same_frame(before)
        &&& before.shows(&ctx_before.progress) ==> self.shows(&ctx.progress)
        &&& match before.phase {
            MainMenuPhase::Start => {
                &&& r is Pending
                &&& self.phase == (MainMenuPhase::Top { selection: 0 })
                &&& ctx.progress == ctx_before.progress
            },
            MainMenuPhase::Top { selection } => {
                &&& ctx.progress == ctx_before.progress
                &&& if input.key_pressed(GameKey::Cancel) || (input.key_pressed(GameKey::Confirm)
                    && selection == 0) {
                    r == Poll::Ready(MainMenuEvent::Done) && self.phase == MainMenuPhase::Start
                } else if input.key_pressed(GameKey::Confirm) {
                    &&& r is Pending
                    &&& self.phase == if selection == 1 {
                        MainMenuPhase::Magic { selection: 0 }
                    } else {
                        MainMenuPhase::Item { selection: 0 }
                    }
                } else {
                    &&& r is Pending
                    &&& self.phase == (MainMenuPhase::Top {
                        selection: entry_moved(selection as int, TOP_ENTRIES as int, up, down)
                            as i32,
                    })
                }
            },
            MainMenuPhase::Magic { selection } => {
                &&& r is Pending
                &&& if input.key_pressed(GameKey::Cancel) || (input.key_pressed(GameKey::Confirm)
                    && selection == 0) {
                    &&& self.phase == (MainMenuPhase::Top { selection: 1 })
                    &&& ctx.progress == ctx_before.progress
                } else if input.key_pressed(GameKey::Confirm) {
                    &&& self.phase == before.phase
                    &&& ctx.progress == MainMenu::magic_cast(&ctx_before.progress, selection - 1)
                } else {
                    &&& self.phase == (MainMenuPhase::Magic {
                        selection: entry_moved(selection as int, SLOT_ENTRIES as int, up, down)
                            as i32,
                    })
                    &&& ctx.progress == ctx_before.progress
                }
            },
            MainMenuPhase::Item { selection } => {
                &&& r is Pending
                &&& if input.key_pressed(GameKey::Cancel) || (input.key_pressed(GameKey::Confirm)
                    && selection == 0) {
                    &&& self.phase == (MainMenuPhase::Top { selection: 2 })
                    &&& ctx.progress == ctx_before.progress
                } else if input.key_pressed(GameKey::Confirm) {
                    &&& self.phase == before.phase
                    &&& if ctx_before.progress.items@[selection - 1].amount > 0 {
                        MainMenu::item_used(&ctx_before.progress, &ctx.progress, selection - 1)
                    } else {
                        ctx.progress == ctx_before.progress
                    }
                } else {
                    &&& self.phase == (MainMenuPhase::Item {
                        selection: entry_moved(selection as int, SLOT_ENTRIES as int, up, down)
                            as i32,
                    })
                    &&& ctx.progress == ctx_before.progress
                }
            },
        }
    }

    fn poll_top(&mut self, mctx: &mut ModeContext, selection: i32) -> (r: Poll<MainMenuEvent>)
        requires
            old(self).wf(),
            old(mctx).wf(),
            old(self).phase == (MainMenuPhase::Top { selection }),
        ensures
            final(self).step(old(self), final(mctx), old(mctx), r),
            final(mctx).wf(),
    {
        let confirm = mctx.input.is_key_pressed(GameKey::Confirm);
        if mctx.input.is_key_pressed(GameKey::Cancel) || (confirm && selection == 0) {
            self.phase = MainMenuPhase::Start;
            Poll::Ready(MainMenuEvent::Done)
        } else if confirm {
            if selection == 1 {
                self.update_bottom_text_for_magic_menu(&mctx.progress);
                self.bottom_cursor_visible = true;
                self.place_bottom_cursor(0);
                self.phase = MainMenuPhase::Magic { selection: 0 };
            } else {
                self.update_bottom_text_for_item_menu(&mctx.progress);
                self.bottom_cursor_visible = true;
                self.place_bottom_cursor(0);
                self.phase = MainMenuPhase::Item { selection: 0 };
            }
            Poll::Pending
        } else {
            let moved = move_entry(
                selection,
                TOP_ENTRIES,
                mctx.input.is_key_pressed(GameKey::Up),
                mctx.input.is_key_pressed(GameKey::Down),
            );
            self.place_menu_cursor(moved);
            self.phase = MainMenuPhase::Top { selection: moved };
            Poll::Pending
        }
    }

    fn poll_magic(&mut self, mctx: &mut ModeContext, selection: i32)
        requires
            old(self).wf(),
            old(mctx).wf(),
            old(self).phase == (MainMenuPhase::Magic { selection }),
        ensures
            final(self).step(old(self), final(mctx), old(mctx), Poll::Pending),
            final(mctx).wf(),
    {
        let confirm = mctx.input.is_key_pressed(GameKey::Confirm);
        if mctx.input.is_key_pressed(GameKey::Cancel) || (confirm && selection == 0) {
            self.back_to_top(&mctx.progress, 1);
        } else if confirm {
            MainMenu::cast_magic(&mut mctx.progress, (selection - 1) as usize);
            self.update_hp_and_mp(&mctx.progress);
        } else {
            let up = mctx.input.is_key_pressed(GameKey::Up);
            let down = mctx.input.is_key_pressed(GameKey::Down);
            let moved = move_entry(selection, SLOT_ENTRIES, up, down);
            if up || down {
                self.place_bottom_cursor(moved);
                self.update_bottom_line_for_magic_menu(&mctx.progress, moved);
            }
            self.phase = MainMenuPhase::Magic { selection: moved };
        }
    }

    fn poll_item(&mut self, mctx: &mut ModeContext, selection: i32)
        requires
            old(self).wf(),
            old(mctx).wf(),
            old(self).phase == (MainMenuPhase::Item { selection }),
        ensures
            final(self).step(old(self), final(mctx), old(mctx), Poll::Pending),
            final(mctx).wf(),
    {
        let confirm = mctx.input.is_key_pressed(GameKey::Confirm);
        if mctx.input.is_key_pressed(GameKey::Cancel) || (confirm && selection == 0) {
            self.back_to_top(&mctx.progress, 2);
        } else if confirm {
            let choice = (selection - 1) as usize;
            if mctx.progress.items[choice].amount > 0 {
                MainMenu::use_item(&mut mctx.progress, choice);
                self.update_hp_and_mp(&mctx.progress);
                self.update_bottom_text_for_item_menu(&mctx.progress);
                self.update_bottom_line_for_item_menu(&mctx.progress, selection);
            }
        } else {
            let up = mctx.input.is_key_pressed(GameKey::Up);
            let down = mctx.input.is_key_pressed(GameKey::Down);
            let moved = move_entry(selection, SLOT_ENTRIES, up, down);
            if up || down {
                self.place_bottom_cursor(moved);
                self.update_bottom_line_for_item_menu(&mctx.progress, moved);
            }
            self.phase = MainMenuPhase::Item { selection: moved };
        }
    }

    /// Runs the main menu up to its next suspension point or to its end.
    pub fn update(&mut self, mctx: &mut ModeContext) -> (r: Poll<MainMenuEvent>)
        requires
            old(self).wf(),
            old(mctx).wf(),
        ensures
            final(self).step(old(self), final(mctx), old(mctx), r),
            final(mctx).wf(),
    {
        match self.phase {
            MainMenuPhase::Start => {
                self.update_hp_and_mp(&mctx.progress);
                self.update_bottom_text_for_status(&mctx.progress);
                self.place_menu_cursor(0);
                self.phase = MainMenuPhase::Top { selection: 0 };
                Poll::Pending
            },
            MainMenuPhase::Top { selection } => self.poll_top(mctx, selection),
            MainMenuPhase::Magic { selection } => {
                self.poll_magic(mctx, selection);
                Poll::Pending
            },
            MainMenuPhase::Item { selection } => {
                self.poll_item(mctx, selection);
                Poll::Pending
            },
        }
    }
}

} // verus!
