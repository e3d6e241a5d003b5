//! A battle between the player and one enemy, fought in turns: the player
//! chooses to fight, to cast magic, to use an item or to run, and then the
//! enemy strikes back.
use vstd::prelude::*;
use crate::async_utils::Poll;
use crate::contexts::ModeContext;
use crate::draw::{views, DrawCommand, DrawCommandView};
use crate::enemy::{Enemy, EnemyView};
use crate::input::GameKey;
use crate::meter::Meter;
use crate::numeric::{add_clamped, clamp_i32, clamp_to_i32, min_i32, sub_clamped};
use crate::progress::{Item, Magic, Progress, NUM_SLOTS};
use crate::random::{sample, Rng, MAX_DRAWS};
use crate::resources::Resources;
use crate::sprite::{find_tag, Playback, Sprite, TagDirection};
use crate::strings::{
    chars_of, push_decimal, push_decimal_right_aligned, push_left_aligned, push_str,
    signed_decimal_of, push_chars, string_from_chars,
};
use crate::text::{Text, CURSOR_CHAR};
use crate::window::Window;

verus! {

pub const ENEMY_X: i32 = 104;

pub const ENEMY_Y: i32 = 32;

pub const MESSAGE_X: i32 = 18;

pub const MESSAGE_Y: i32 = 116;

pub const STATUS_X: i32 = 250;

pub const STATUS_Y: i32 = 116;

/// Number of ticks that a figure blinks for when it is hit.
pub const BLINK_TICKS: u8 = 20;

#[derive(Clone, Copy, Debug, PartialEq, Eq, Structural)]
pub enum BattleEvent {
    Defeat,
    RanAway,
    Victory,
}

/// What the player chose to do on a turn.
#[derive(Clone, Copy, Debug, PartialEq, Eq, Structural)]
pub enum PlayerChoice {
    Fight,
    Magic(usize),
    Item(usize),
    Run,
}

/// What follows once a message has been confirmed.
#[derive(Clone, Copy, Debug, PartialEq, Eq, Structural)]
pub enum AfterMessage {
    /// The player's action is over.
    EndOfAction,
    /// The item that was used restores magic points next.
    RestoreMp { item: Item, heal_mp: i32 },
    /// The player ran; the battle is over.
    RanAway,
    /// The enemy is defeated; the player gains experience.
    Defeated,
    /// The player gained a level, and may gain another.
    LevelUp,
    /// The enemy has struck; the next turn begins where the player is alive.
    EnemyAttacked,
}

/// Where an update of a battle stands.
#[derive(Clone, Copy, Debug, PartialEq, Eq, Structural)]
pub enum BattlePhase {
    /// No update is in progress.
    Start,
    /// The call to action is being revealed.
    ActionReveal,
    /// The player chooses among fight, magic, item and run.
    ActionMenu { selection: usize },
    /// The player chooses among back and the four kinds of magic.
    MagicMenu { selection: usize },
    /// The player chooses among back and the four items.
    ItemMenu { selection: usize },
    /// The enemy blinks: `ticks` ticks have passed, and it takes `damage`.
    EnemyHit { ticks: u8, damage: i32, magic: Option<Magic> },
    /// A message is being revealed.
    MessageReveal { next: AfterMessage },
    /// A message waits to be confirmed.
    MessageShown { next: AfterMessage },
    /// The player's status blinks: `ticks` ticks have passed, and the player takes `damage`.
    StatusBlink { ticks: u8, damage: i32 },
}

pub struct Battle {
    pub enemy_window: Window,
    pub enemy_sprite: Sprite,
    pub enemy_hp_meter: Meter,
    pub enemy_visible: bool,
    pub message_window: Window,
    pub message_text: Text,
    pub menu_text: Text,
    pub cursor: Text,
    pub menu_visible: bool,
    pub status_window: Window,
    pub status_visible: bool,
    pub hp_text: Text,
    pub mp_text: Text,
    pub hp_meter: Meter,
    pub mp_meter: Meter,
    pub change_window: Window,
    pub change_text: Text,
    pub change_visible: bool,
    pub enemy: Enemy,
    pub boss_fight: bool,
    /// The magic that the player cast last and the turns for which a
    /// plain attack still follows up on it.
    pub follow_up: Option<(Magic, usize)>,
    pub phase: BattlePhase,
}

/// `n / d` rounded towards zero.
pub open spec fn div_towards_zero(n: int, d: int) -> int
    recommends
        d > 0,
{
    if n >= 0 {
        n / d
    } else {
        -((-n) / d)
    }
}

/// Twice the factor by which a follow-up raises the damage: a plain
/// attack counts once, and an attack that follows magic counts for more,
/// most right after the magic was cast and against an enemy weak to it.
pub open spec fn bonus_doubled(follow_up: Option<(Magic, usize)>, weakness: Option<Magic>) -> int {
    match follow_up {
        Some((magic, turns)) => {
            let which = if weakness == Some(magic) {
                turns + 1
            } else {
                turns as int
            };
            if which == 0 {
                3
            } else if which == 1 {
                4
            } else {
                6
            }
        },
        None => 2,
    }
}

/// The damage of an attack as a fraction, numerator first, with a
/// denominator above 0; `None` where the damage is beyond all bounds.
///
/// An attack that is weak against the defense deals 1, a middling one
/// the square of the attack over the defense, and a strong one twice the
/// attack less the defense.
pub open spec fn base_damage(attack: int, defense: int) -> Option<(int, int)> {
    if attack * attack < defense {
        Some((1, 1))
    } else if attack < defense {
        if defense == 0 {
            None
        } else if defense > 0 {
            Some((attack * attack, defense))
        } else {
            Some((-(attack * attack), -defense))
        }
    } else {
        Some((2 * attack - defense, 1))
    }
}

/// The damage dealt: the whole part of the damage times half of
/// `doubled`, and one more with the chance of the fraction that is left,
/// decided by a roll of 0 to 99.
pub open spec fn damage_dealt(attack: int, defense: int, doubled: int, roll: int) -> i32 {
    match base_damage(attack, defense) {
        None => i32::MAX,
        Some((n, d)) => {
            let num = n * doubled;
            let den = d * 2;
            let whole = div_towards_zero(num, den);
            let rest = num - whole * den;
            clamp_i32(
                whole + if roll * den < rest * 100 {
                    1int
                } else {
                    0int
                },
            )
        },
    }
}

/// The damage dealt for a given roll.
pub fn calc_damage(attack: i32, defense: i32, doubled: u8, roll: u32) -> (damage: i32)
    requires
        doubled <= 6,
        roll < 100,
    ensures
        damage == damage_dealt(attack as int, defense as int, doubled as int, roll as int),
{
    let a = attack as i128;
    let d = defense as i128;
    assert(0 <= a * a <= 0x8000_0000 * 0x8000_0000) by (nonlinear_arith)
        requires
            -0x8000_0000 <= a <= 0x7fff_ffff,
    ;
    let (n, den): (i128, i128) = if a * a < d {
        (1, 1)
    } else if a < d {
        if d == 0 {
            return i32::MAX;
        } else if d > 0 {
            (a * a, d)
        } else {
            (-(a * a), -d)
        }
    } else {
        (2 * a - d, 1)
    };
    assert(-0x8000_0000 * 0x8000_0000 * 6 <= n * (doubled as i128) <= 0x8000_0000
        * 0x8000_0000 * 6) by (nonlinear_arith)
        requires
            -0x8000_0000 * 0x8000_0000 <= n <= 0x8000_0000 * 0x8000_0000,
            0 <= doubled <= 6,
    ;
    let num: i128 = n * (doubled as i128);
    let den2: i128 = den * 2;
    let mag: i128 = if num >= 0 {
        num
    } else {
        -num
    };
    let q: i128 = mag / den2;
    let rem: i128 = mag % den2;
    proof {
        vstd::arithmetic::div_mod::lemma_fundamental_div_mod(mag as int, den2 as int);
        vstd::arithmetic::div_mod::lemma_mod_bound(mag as int, den2 as int);
        vstd::arithmetic::div_mod::lemma_div_pos_is_pos(mag as int, den2 as int);
        assert(den2 as int * (mag as int / den2 as int) == (mag as int / den2 as int)
            * den2 as int) by (nonlinear_arith);
        assert(q <= mag) by (nonlinear_arith)
            requires
                mag == den2 * q + rem,
                rem >= 0,
                q >= 0,
                den2 >= 2,
        ;
    }
    let (whole, rest): (i128, i128) = if num >= 0 {
        (q, rem)
    } else {
        (-q, -rem)
    };
    assert(whole == div_towards_zero(num as int, den2 as int));
    assert(rest == num - whole * den2) by (nonlinear_arith)
        requires
            mag == den2 * q + rem,
            num >= 0 ==> whole == q && rest == rem && mag == num,
            num < 0 ==> whole == -q && rest == -rem && mag == -num,
    ;
    assert(0 <= (roll as i128) * den2 <= 100 * 0x2_0000_0000) by (nonlinear_arith)
        requires
            0 <= roll < 100,
            2 <= den2 <= 0x2_0000_0000,
    ;
    let more: i128 = if (roll as i128) * den2 < rest * 100 {
        1
    } else {
        0
    };
    let total = whole + more;
    if total > i32::MAX as i128 {
        i32::MAX
    } else if total < i32::MIN as i128 {
        i32::MIN
    } else {
        total as i32
    }
}

/// Twice the factor by which a follow-up raises the damage.
pub fn follow_up_bonus(follow_up: Option<(Magic, usize)>, weakness: Option<Magic>) -> (doubled: u8)
    ensures
        doubled == bonus_doubled(follow_up, weakness),
        doubled <= 6,
{
    match follow_up {
        Some((magic, turns)) => {
            let weak = match weakness {
                Some(m) => m == magic,
                None => false,
            };
            if turns == 0 && !weak {
                3
            } else if (turns == 0 && weak) || (turns == 1 && !weak) {
                4
            } else {
                6
            }
        },
        None => 2,
    }
}

/// The damage that the player deals with an attack or with magic, the
/// chance in it decided by the next number of `rng`.
pub fn calc_magic_damage(
    attack: i32,
    defense: i32,
    follow_up: Option<(Magic, usize)>,
    weakness: Option<Magic>,
    rng: &mut Rng,
) -> (damage: i32)
    ensures
        damage == damage_dealt(
            attack as int,
            defense as int,
            bonus_doubled(follow_up, weakness),
            sample(old(rng)@, 100, MAX_DRAWS as nat).0 as int,
        ),
        final(rng)@ == sample(old(rng)@, 100, MAX_DRAWS as nat).1,
{
    let roll = rng.random(100);
    calc_damage(attack, defense, follow_up_bonus(follow_up, weakness), roll)
}

/// The damage that a plain attack deals, the chance in it decided by the
/// next number of `rng`.
pub fn calc_base_damage(attack: i32, defense: i32, rng: &mut Rng) -> (damage: i32)
    ensures
        damage == damage_dealt(
            attack as int,
            defense as int,
            2,
            sample(old(rng)@, 100, MAX_DRAWS as nat).0 as int,
        ),
        final(rng)@ == sample(old(rng)@, 100, MAX_DRAWS as nat).1,
{
    let roll = rng.random(100);
    calc_damage(attack, defense, 2, roll)
}

/// What an item restores: hit points first, then magic points.
pub open spec fn item_effect(item: Item, max_hp: i32, max_mp: i32) -> (i32, i32) {
    match item {
        Item::Salve => (three_tenths_up(max_hp), 0i32),
        Item::XSalve => (max_hp, 0i32),
        Item::Tonic => (0i32, three_tenths_up(max_mp)),
        Item::XTonic => (0i32, max_mp),
    }
}

/// Three tenths of `v`, rounded up where `v` is not negative.
pub open spec fn three_tenths_up(v: i32) -> i32 {
    div_towards_zero(v * 3 + 9, 10) as i32
}

/// Half of `v`, rounded up where `v` is not negative.
pub open spec fn half_up(v: i32) -> i32 {
    div_towards_zero(v + 1, 2) as i32
}

pub fn divide_towards_zero(n: i64, d: i64) -> (r: i64)
    requires
        d > 0,
        n > i64::MIN,
    ensures
        r == div_towards_zero(n as int, d as int),
        n >= 0 ==> 0 <= r <= n,
        n < 0 ==> n <= r <= 0,
{
    if n >= 0 {
        let r = n / d;
        proof {
            vstd::arithmetic::div_mod::lemma_div_pos_is_pos(n as int, d as int);
            vstd::arithmetic::div_mod::lemma_div_is_ordered_by_denominator(n as int, 1, d as int);
            vstd::arithmetic::div_mod::lemma_div_basics(n as int);
        }
        r
    } else {
        let m = -n;
        let r = m / d;
        proof {
            vstd::arithmetic::div_mod::lemma_div_pos_is_pos(m as int, d as int);
            vstd::arithmetic::div_mod::lemma_div_is_ordered_by_denominator(m as int, 1, d as int);
            vstd::arithmetic::div_mod::lemma_div_basics(m as int);
        }
        -r
    }
}

pub fn three_tenths(v: i32) -> (r: i32)
    ensures
        r == three_tenths_up(v),
{
    divide_towards_zero(v as i64 * 3 + 9, 10) as i32
}

pub fn half(v: i32) -> (r: i32)
    ensures
        r == half_up(v),
{
    divide_towards_zero(v as i64 + 1, 2) as i32
}

/// The selection after an arrow key in the menu of back and four
/// entries, which lie in two rows of two beside back.
pub open spec fn grid_moved(selection: int, up_down: bool, left: bool, right: bool) -> int {
    if up_down {
        if selection == 0 {
            0
        } else if selection <= 2 {
            selection + 2
        } else {
            selection - 2
        }
    } else if left {
        if selection == 0 {
            2
        } else if selection == 3 {
            4
        } else {
            selection - 1
        }
    } else if right {
        if selection == 2 {
            0
        } else if selection == 4 {
            3
        } else {
            selection + 1
        }
    } else {
        selection
    }
}

fn move_in_grid(selection: usize, up_down: bool, left: bool, right: bool) -> (s: usize)
    requires
        selection <= 4,
    ensures
        s == grid_moved(selection as int, up_down, left, right),
        s <= 4,
{
    if up_down {
        if selection == 0 {
            0
        } else if selection <= 2 {
            selection + 2
        } else {
            selection - 2
        }
    } else if left {
        if selection == 0 {
            2
        } else if selection == 3 {
            4
        } else {
            selection - 1
        }
    } else if right {
        if selection == 2 {
            0
        } else if selection == 4 {
            3
        } else {
            selection + 1
        }
    } else {
        selection
    }
}

/// What a sprite at its first frame plays once it was set to the
/// animation called idle: the first frame of that animation, where there
/// is one that can be played, and else what it played.
pub open spec fn idle_playback(sprite: &Sprite) -> Playback {
    let idle = find_tag(sprite.tags(), "idle"@);
    if 0 < idle < sprite.tags().len() && (sprite.tags()[idle].direction == TagDirection::Forward
        || sprite.tags()[idle].direction == TagDirection::PingPong) {
        Playback { tag: idle, frame: sprite.tags()[idle].from as int, t: 0, forward: true }
    } else {
        Playback { tag: 0, frame: 0, t: 0, forward: true }
    }
}

/// Value and largest value of a meter that was made for `points`.
pub open spec fn full_meter(points: i32) -> (int, int) {
    let largest = crate::numeric::max(points as int, 1);
    (crate::numeric::clamp(points as int, 0, largest), largest)
}

impl Battle {
    /// The widgets are sound and the phase is one that can be resumed.
    pub open spec fn wf(&self) -> bool {
        &&& self.enemy_sprite.wf()
        &&& self.enemy_hp_meter.wf()
        &&& self.message_text.wf()
        &&& self.menu_text.wf()
        &&& self.cursor.wf()
        &&& self.hp_text.wf()
        &&& self.mp_text.wf()
        &&& self.hp_meter.wf()
        &&& self.mp_meter.wf()
        &&& self.change_text.wf()
        &&& match self.phase {
            BattlePhase::ActionMenu { selection } => selection <= 3,
            BattlePhase::MagicMenu { selection } => selection <= 4,
            BattlePhase::ItemMenu { selection } => selection <= 4,
            BattlePhase::EnemyHit { ticks, .. } => 1 <= ticks <= BLINK_TICKS,
            BattlePhase::StatusBlink { ticks, .. } => 1 <= ticks <= BLINK_TICKS,
            _ => true,
        }
    }

    /// What a battle holds that has not been updated: the windows at
    /// their places, the enemy's picture set to its idle animation where
    /// it has one, the meters full, and the texts empty but for the mark
    /// of the cursor.
    pub open spec fn fresh(&self, res: &Resources, max_hp: i32, max_mp: i32) -> bool {
        let t = &res.window_textures;
        let font = &res.font;
        let sheet = res.sheet_named(self.enemy.sprite_path@);
        &&& self.phase == BattlePhase::Start
        &&& self.follow_up is None
        &&& self.enemy_visible && !self.menu_visible && self.status_visible && !self.change_visible
        &&& self.enemy_window.placed(t, ENEMY_X, ENEMY_Y, 112, 80)
        &&& self.enemy_sprite.made_of(&sheet)
        &&& self.enemy_sprite.playback() == idle_playback(&self.enemy_sprite)
        &&& self.enemy_hp_meter.set_up(
            144,
            50,
            32,
            seq![0u8, 192u8, 0u8],
            full_meter(self.enemy.hp).0,
            full_meter(self.enemy.hp).1,
        )
        &&& self.message_window.placed(t, MESSAGE_X, MESSAGE_Y, 232, 48)
        &&& self.message_text.written(font, 26, 124, Seq::empty())
        &&& self.menu_text.written(font, 26, 140, Seq::empty())
        &&& self.cursor.written(font, 26, 148, seq![crate::text::CURSOR_CHAR])
        &&& self.status_window.placed(t, STATUS_X, STATUS_Y, 52, 48)
        &&& self.hp_text.written(font, 258, 124, Seq::empty())
        &&& self.mp_text.written(font, 258, 140, Seq::empty())
        &&& self.hp_meter.set_up(
            258,
            133,
            36,
            seq![0u8, 192u8, 0u8],
            full_meter(max_hp).0,
            full_meter(max_hp).1,
        )
        &&& self.mp_meter.set_up(
            258,
            149,
            36,
            seq![0u8, 192u8, 192u8],
            full_meter(max_mp).0,
            full_meter(max_mp).1,
        )
        &&& self.change_window.placed(t, 0, 0, 16, 24)
        &&& self.change_text.written(font, 0, 0, Seq::empty())
    }

    /// A battle against `enemy`; `None` where the enemy has no usable sprite.
    pub fn new(res: &Resources, max_hp: i32, max_mp: i32, enemy: Enemy, boss_fight: bool) -> (r:
        Option<Battle>)
        requires
            res.window_textures.wf(),
        ensures
            r is Some == (res.sprite_sheet_usable(enemy.sprite_path@)),
            r matches Some(b) ==> {
                &&& b.wf()
                &&& b.phase == BattlePhase::Start
                &&& b.enemy == enemy
                &&& b.boss_fight == boss_fight
                &&& b.follow_up is None
                &&& b.enemy_visible && !b.menu_visible && b.status_visible && !b.change_visible
                &&& b.fresh(res, max_hp, max_mp)
                &&& b.seen_as(BattlePhase::Start)
            },
    {
        let mut enemy_sprite = match res.sprite_sheet(enemy.sprite_path) {
            Some(sheet) => match Sprite::new(sheet) {
                Some(sprite) => sprite,
                None => {
                    return None;
                },
            },
            None => {
                return None;
            },
        };
        proof {
            crate::sprite::lemma_find_tag(enemy_sprite.tags(), "idle"@);
        }
        let _ = enemy_sprite.start_animation("idle");
        let mut cursor = Text::new(&res.font, MESSAGE_X + 8, MESSAGE_Y + 32);
        cursor.set_text(cursor_str());
        let textures = &res.window_textures;
        Some(
            Battle {
                enemy_window: Window::new(textures, ENEMY_X, ENEMY_Y, 112, 80),
                enemy_sprite,
                enemy_hp_meter: Meter::new(ENEMY_X + 40, ENEMY_Y + 18, 32, [0, 192, 0], enemy.hp),
                enemy_visible: true,
                message_window: Window::new(textures, MESSAGE_X, MESSAGE_Y, 232, 48),
                message_text: Text::new(&res.font, MESSAGE_X + 8, MESSAGE_Y + 8),
                menu_text: Text::new(&res.font, MESSAGE_X + 8, MESSAGE_Y + 24),
                cursor,
                menu_visible: false,
                status_window: Window::new(textures, STATUS_X, STATUS_Y, 52, 48),
                status_visible: true,
                hp_text: Text::new(&res.font, STATUS_X + 8, STATUS_Y + 8),
                mp_text: Text::new(&res.font, STATUS_X + 8, STATUS_Y + 24),
                hp_meter: Meter::new(STATUS_X + 8, STATUS_Y + 17, 36, [0, 192, 0], max_hp),
                mp_meter: Meter::new(STATUS_X + 8, STATUS_Y + 33, 36, [0, 192, 192], max_mp),
                change_window: Window::new(textures, 0, 0, 16, 24),
                change_text: Text::new(&res.font, 0, 0),
                change_visible: false,
                enemy,
                boss_fight,
                follow_up: None,
                phase: BattlePhase::Start,
            },
        )
    }

    /// The enemy in its window.
    pub open spec fn enemy_drawn(&self) -> Seq<DrawCommandView> {
        self.enemy_window.drawn() + if self.enemy_visible {
            self.enemy_sprite.drawn((ENEMY_X + 40) as i32, (ENEMY_Y + 24) as i32)
                + self.enemy_hp_meter.drawn()
        } else {
            Seq::empty()
        }
    }

    /// The message in its window, with the menu and its cursor.
    pub open spec fn message_drawn(&self) -> Seq<DrawCommandView> {
        self.message_window.drawn() + self.message_text.drawn() + if self.menu_visible {
            self.menu_text.drawn() + self.cursor.drawn()
        } else {
            Seq::empty()
        }
    }

    /// The player's hit points and magic points in their window.
    pub open spec fn status_drawn(&self) -> Seq<DrawCommandView> {
        if self.status_visible {
            self.status_window.drawn() + self.hp_text.drawn() + self.mp_text.drawn()
                + self.hp_meter.drawn() + self.mp_meter.drawn()
        } else {
            Seq::empty()
        }
    }

    /// The change of points that was dealt last, in its window.
    pub open spec fn change_drawn(&self) -> Seq<DrawCommandView> {
        if self.change_visible {
            self.change_window.drawn() + self.change_text.drawn()
        } else {
            Seq::empty()
        }
    }

    /// What [`Battle::draw`] appends: the enemy, the message, the player's
    /// status and the latest change, each as far as it is to be seen.
    pub open spec fn drawn(&self) -> Seq<DrawCommandView> {
        self.enemy_drawn() + self.message_drawn() + self.status_drawn() + self.change_drawn()
    }

    fn draw_enemy(&self, out: &mut Vec<DrawCommand>)
        requires
            self.wf(),
        ensures
            views(final(out)@) == views(old(out)@) + self.enemy_drawn(),
    {
        self.enemy_window.draw(out);
        if self.enemy_visible {
            self.enemy_sprite.draw(out, ENEMY_X + 40, ENEMY_Y + 24);
            self.enemy_hp_meter.draw(out);
        }
        assert(views(final(out)@) =~= views(old(out)@) + self.enemy_drawn());
    }

    fn draw_message(&self, out: &mut Vec<DrawCommand>)
        requires
            self.wf(),
        ensures
            views(final(out)@) == views(old(out)@) + self.message_drawn(),
    {
        self.message_window.draw(out);
        self.message_text.draw(out);
        if self.menu_visible {
            self.menu_text.draw(out);
            self.cursor.draw(out);
        }
        assert(views(final(out)@) =~= views(old(out)@) + self.message_drawn());
    }

    fn draw_status(&self, out: &mut Vec<DrawCommand>)
        requires
            self.wf(),
        ensures
            views(final(out)@) == views(old(out)@) + self.status_drawn(),
    {
        if self.status_visible {
            self.status_window.draw(out);
            self.hp_text.draw(out);
            self.mp_text.draw(out);
            self.hp_meter.draw(out);
            self.mp_meter.draw(out);
        }
        assert(views(final(out)@) =~= views(old(out)@) + self.status_drawn());
    }

    fn draw_change(&self, out: &mut Vec<DrawCommand>)
        requires
            self.wf(),
        ensures
            views(final(out)@) == views(old(out)@) + self.change_drawn(),
    {
        if self.change_visible {
            self.change_window.draw(out);
            self.change_text.draw(out);
        }
        assert(views(final(out)@) =~= views(old(out)@) + self.change_drawn());
    }

    pub fn draw(&self, out: &mut Vec<DrawCommand>)
        requires
            self.wf(),
        ensures
            views(final(out)@) == views(old(out)@) + self.drawn(),
    {
        let ghost start = views(out@);
        self.draw_enemy(out);
        self.draw_message(out);
        proof {
            crate::draw::lemma_concat_assoc(start, self.enemy_drawn(), self.message_drawn());
        }
        self.draw_status(out);
        proof {
            crate::draw::lemma_concat_assoc(
                start,
                self.enemy_drawn() + self.message_drawn(),
                self.status_drawn(),
            );
        }
        self.draw_change(out);
        proof {
            crate::draw::lemma_concat_assoc(
                start,
                self.enemy_drawn() + self.message_drawn() + self.status_drawn(),
                self.change_drawn(),
            );
        }
    }
}

/// A follow-up one turn later: it lasts for as many turns as it has left.
pub open spec fn decayed(follow_up: Option<(Magic, usize)>) -> Option<(Magic, usize)> {
    match follow_up {
        Some((magic, turns)) => if turns > 0 {
            Some((magic, (turns - 1) as usize))
        } else {
            None
        },
        None => None,
    }
}

/// The hit points that are left of `hp` after `damage`: never less than 0
/// for damage that is not negative.
pub open spec fn hp_after(hp: i32, damage: i32) -> i32 {
    clamp_i32(
        hp - if damage < hp {
            damage
        } else {
            hp
        },
    )
}

/// Points restored: the sum, at most the largest value.
pub open spec fn restored(points: i32, max: i32, heal: i32) -> i32 {
    let sum = clamp_i32(points + heal);
    if max < sum {
        max
    } else {
        sum
    }
}

fn restore(points: i32, max: i32, heal: i32) -> (r: i32)
    ensures
        r == restored(points, max, heal),
{
    min_i32(max, add_clamped(points, heal))
}

fn take_damage(hp: i32, damage: i32) -> (r: i32)
    ensures
        r == hp_after(hp, damage),
{
    sub_clamped(hp, min_i32(damage, hp))
}

/// The text that calls the player to action.
pub open spec fn action_message(enemy_name: Seq<char>) -> Seq<char> {
    enemy_name + " prepares to fight!\nChoose your course of action:"@
}

/// The line of the action menu.
pub open spec fn action_menu_line(has_follow_up: bool) -> Seq<char> {
    "\n "@ + (if has_follow_up {
        "FollowUp"@
    } else {
        "Fight   "@
    }) + "   Magic     Item     Run"@
}

fn make_action_message(enemy_name: &str) -> (s: String)
    ensures
        s@ == action_message(enemy_name@),
{
    let mut out: Vec<char> = Vec::new();
    push_str(&mut out, enemy_name);
    push_str(&mut out, " prepares to fight!\nChoose your course of action:");
    string_from_chars(&out)
}

fn make_action_menu_line(has_follow_up: bool) -> (s: String)
    ensures
        s@ == action_menu_line(has_follow_up),
{
    let mut out: Vec<char> = Vec::new();
    push_str(&mut out, "\n ");
    if has_follow_up {
        push_str(&mut out, "FollowUp");
    } else {
        push_str(&mut out, "Fight   ");
    }
    push_str(&mut out, "   Magic     Item     Run");
    string_from_chars(&out)
}

/// The text after an attack of the player.
pub open spec fn attack_message(damage: i32, enemy_name: Seq<char>) -> Seq<char> {
    "Coric attacks!\n"@ + crate::strings::decimal(damage as int) + " HP damage to "@ + enemy_name
        + "."@
}

/// The text after magic that deals damage.
pub open spec fn magic_message(
    magic: Magic,
    weak: bool,
    damage: i32,
    enemy_name: Seq<char>,
) -> Seq<char> {
    "Coric casts "@ + magic.spec_name() + "!\n"@ + (if weak {
        enemy_name + " is weak to "@ + magic.spec_name() + "!\n"@
    } else {
        Seq::<char>::empty()
    }) + crate::strings::decimal(damage as int) + " HP damage to "@ + enemy_name + "."@
}

/// The text after an attack of the enemy.
pub open spec fn enemy_attack_message(damage: i32, enemy_name: Seq<char>) -> Seq<char> {
    enemy_name + " attacks!\n"@ + crate::strings::decimal(damage as int) + " HP damage to Coric."@
}

/// The text after the enemy's defeat.
pub open spec fn defeat_message(enemy_name: Seq<char>, exp: i32) -> Seq<char> {
    enemy_name + " is defeated!\nCoric gained "@ + crate::strings::decimal(exp as int) + " XP!"@
}

/// The text after a new level.
pub open spec fn level_message(level: i32) -> Seq<char> {
    "Coric is now level "@ + crate::strings::decimal(level as int) + "!"@
}

/// The text after the magic that heals.
pub open spec fn heal_message(heal: i32) -> Seq<char> {
    "Coric casts Heal!\n"@ + crate::strings::decimal(heal as int) + " HP recovered."@
}

/// The text after an item that restores points of a kind.
pub open spec fn item_message(item: Item, heal: i32, kind: Seq<char>) -> Seq<char> {
    "Coric uses "@ + item.spec_name() + ".\n"@ + crate::strings::decimal(heal as int) + " "@ + kind
        + " healed for Coric!"@
}

fn make_attack_message(damage: i32, enemy_name: &str) -> (s: String)
    ensures
        s@ == attack_message(damage, enemy_name@),
{
    let mut out: Vec<char> = Vec::new();
    push_str(&mut out, "Coric attacks!\n");
    push_decimal(&mut out, damage as i64);
    push_str(&mut out, " HP damage to ");
    push_str(&mut out, enemy_name);
    push_str(&mut out, ".");
    string_from_chars(&out)
}

fn make_magic_message(magic: Magic, weak: bool, damage: i32, enemy_name: &str) -> (s: String)
    ensures
        s@ == magic_message(magic, weak, damage, enemy_name@),
{
    let mut out: Vec<char> = Vec::new();
    push_str(&mut out, "Coric casts ");
    push_str(&mut out, magic.name());
    push_str(&mut out, "!\n");
    if weak {
        push_str(&mut out, enemy_name);
        push_str(&mut out, " is weak to ");
        push_str(&mut out, magic.name());
        push_str(&mut out, "!\n");
        assert(out@ =~= "Coric casts "@ + magic.spec_name() + "!\n"@ + (enemy_name@
            + " is weak to "@ + magic.spec_name() + "!\n"@));
    } else {
        assert(out@ =~= "Coric casts "@ + magic.spec_name() + "!\n"@ + Seq::<char>::empty());
    }
    push_decimal(&mut out, damage as i64);
    push_str(&mut out, " HP damage to ");
    push_str(&mut out, enemy_name);
    push_str(&mut out, ".");
    string_from_chars(&out)
}

fn make_enemy_attack_message(damage: i32, enemy_name: &str) -> (s: String)
    ensures
        s@ == enemy_attack_message(damage, enemy_name@),
{
    let mut out: Vec<char> = Vec::new();
    push_str(&mut out, enemy_name);
    push_str(&mut out, " attacks!\n");
    push_decimal(&mut out, damage as i64);
    push_str(&mut out, " HP damage to Coric.");
    string_from_chars(&out)
}

fn make_defeat_message(enemy_name: &str, exp: i32) -> (s: String)
    ensures
        s@ == defeat_message(enemy_name@, exp),
{
    let mut out: Vec<char> = Vec::new();
    push_str(&mut out, enemy_name);
    push_str(&mut out, " is defeated!\nCoric gained ");
    push_decimal(&mut out, exp as i64);
    push_str(&mut out, " XP!");
    string_from_chars(&out)
}

fn make_level_message(level: i32) -> (s: String)
    ensures
        s@ == level_message(level),
{
    let mut out: Vec<char> = Vec::new();
    push_str(&mut out, "Coric is now level ");
    push_decimal(&mut out, level as i64);
    push_str(&mut out, "!");
    string_from_chars(&out)
}

fn make_heal_message(heal: i32) -> (s: String)
    ensures
        s@ == heal_message(heal),
{
    let mut out: Vec<char> = Vec::new();
    push_str(&mut out, "Coric casts Heal!\n");
    push_decimal(&mut out, heal as i64);
    push_str(&mut out, " HP recovered.");
    string_from_chars(&out)
}

fn make_item_message(item: Item, heal: i32, kind: &str) -> (s: String)
    ensures
        s@ == item_message(item, heal, kind@),
{
    let mut out: Vec<char> = Vec::new();
    push_str(&mut out, "Coric uses ");
    push_str(&mut out, item.name());
    push_str(&mut out, ".\n");
    push_decimal(&mut out, heal as i64);
    push_str(&mut out, " ");
    push_str(&mut out, kind);
    push_str(&mut out, " healed for Coric!");
    string_from_chars(&out)
}

/// The status line of a kind of points: the kind, and the points in four columns.
pub open spec fn status_line(kind: Seq<char>, points: i32) -> Seq<char> {
    kind + crate::strings::pad_left(crate::strings::decimal(points as int), 4)
}

fn make_status_line(kind: &str, points: i32) -> (s: String)
    ensures
        s@ == status_line(kind@, points),
{
    let mut out: Vec<char> = Vec::new();
    push_str(&mut out, kind);
    push_decimal_right_aligned(&mut out, points as i64, 4);
    string_from_chars(&out)
}

/// The two lines of a menu of back and four entries, each entry in
/// `width` columns.
pub open spec fn grid_menu(entries: Seq<Seq<char>>, width: nat, gap: Seq<char>) -> Seq<char>
    recommends
        entries.len() == 4,
{
    " Back   "@ + crate::strings::pad_right(crate::strings::clipped(entries[0], width), width)
        + gap + crate::strings::pad_right(crate::strings::clipped(entries[1], width), width)
        + "\n        "@ + crate::strings::pad_right(
        crate::strings::clipped(entries[2], width),
        width,
    ) + gap + crate::strings::pad_right(crate::strings::clipped(entries[3], width), width)
}

fn make_grid_menu(a: &str, b: &str, c: &str, d: &str, width: usize, gap: &str) -> (s: String)
    ensures
        s@ == grid_menu(seq![a@, b@, c@, d@], width as nat, gap@),
{
    let mut out: Vec<char> = Vec::new();
    push_str(&mut out, " Back   ");
    let entry = chars_of(a);
    push_left_aligned(&mut out, &entry, width, width);
    push_str(&mut out, gap);
    let entry = chars_of(b);
    push_left_aligned(&mut out, &entry, width, width);
    push_str(&mut out, "\n        ");
    let entry = chars_of(c);
    push_left_aligned(&mut out, &entry, width, width);
    push_str(&mut out, gap);
    let entry = chars_of(d);
    push_left_aligned(&mut out, &entry, width, width);
    string_from_chars(&out)
}

/// A change of points with its sign, and the kind of points behind it.
pub open spec fn change_label(change: i32, kind: Seq<char>) -> Seq<char> {
    crate::strings::signed_decimal(change as int) + kind
}

fn make_change_label(change: i32, kind: &str) -> (s: String)
    ensures
        s@ == change_label(change, kind@),
{
    let mut out = signed_decimal_of(change as i64);
    push_str(&mut out, kind);
    string_from_chars(&out)
}

fn make_number(n: i32) -> (s: String)
    ensures
        s@ == crate::strings::decimal(n as int),
{
    let mut out: Vec<char> = Vec::new();
    push_decimal(&mut out, n as i64);
    string_from_chars(&out)
}

impl Battle {
    /// What no update changes: the windows but the one of the latest
    /// change, the sheet of the enemy's picture, the places of texts and
    /// meters, and the mark of the cursor.
    pub open spec fn same_frame(&self, before: &Battle) -> bool {
        &&& self.enemy_window == before.enemy_window
        &&& self.message_window == before.message_window
        &&& self.status_window == before.status_window
        &&& self.enemy_sprite.same_sheet(&before.enemy_sprite)
        &&& self.enemy_hp_meter.same_place(&before.enemy_hp_meter)
        &&& self.enemy_hp_meter.max_value() == before.enemy_hp_meter.max_value()
        &&& self.message_text.offset() == before.message_text.offset()
        &&& self.message_text.cell() == before.message_text.cell()
        &&& self.menu_text.offset() == before.menu_text.offset()
        &&& self.menu_text.cell() == before.menu_text.cell()
        &&& self.cursor.glyphs() == before.cursor.glyphs()
        &&& self.cursor.cell() == before.cursor.cell()
        &&& self.cursor.size() == before.cursor.size()
        &&& self.cursor.shown() == before.cursor.shown()
        &&& self.hp_text.offset() == before.hp_text.offset()
        &&& self.hp_text.cell() == before.hp_text.cell()
        &&& self.mp_text.offset() == before.mp_text.offset()
        &&& self.mp_text.cell() == before.mp_text.cell()
        &&& self.hp_meter.same_place(&before.hp_meter)
        &&& self.mp_meter.same_place(&before.mp_meter)
        &&& self.change_text.cell() == before.change_text.cell()
        &&& self.change_window.frame() == before.change_window.frame()
    }

    /// Enemy, kind of fight and follow-up are the same.
    pub open spec fn same_fight(&self, before: &Battle) -> bool {
        &&& self.enemy == before.enemy
        &&& self.boss_fight == before.boss_fight
        &&& self.follow_up == before.follow_up
    }

    /// The same fight in the same phase.
    pub open spec fn same_core(&self, before: &Battle) -> bool {
        &&& self.same_fight(before)
        &&& self.phase == before.phase
    }

    /// The widgets other than the message text are sound.
    pub open spec fn widgets_wf(&self) -> bool {
        &&& self.enemy_sprite.wf()
        &&& self.enemy_hp_meter.wf()
        &&& self.message_text.wf()
        &&& self.menu_text.wf()
        &&& self.cursor.wf()
        &&& self.hp_text.wf()
        &&& self.mp_text.wf()
        &&& self.hp_meter.wf()
        &&& self.mp_meter.wf()
        &&& self.change_text.wf()
    }

    /// Where the cursor stands beside an entry of the action menu.
    pub open spec fn action_cursor_place(which: int) -> (i32, i32) {
        let column: int = if which == 0 {
            0
        } else if which == 1 {
            11
        } else if which == 2 {
            21
        } else {
            30
        };
        ((26 + column * 6) as i32, 148i32)
    }

    /// Where the cursor stands beside an entry of a menu of back and
    /// four slots in two rows.
    pub open spec fn grid_cursor_place(which: int) -> (i32, i32) {
        let column: int = if which == 0 {
            0
        } else if which == 1 || which == 3 {
            7
        } else {
            22
        };
        let row: int = if which >= 3 {
            1
        } else {
            0
        };
        ((26 + column * 6) as i32, (140 + row * 8) as i32)
    }

    /// The status shows the hit points and magic points of the player.
    pub open spec fn status_shows(&self, p: &Progress) -> bool {
        &&& self.hp_text.reads(status_line("HP"@, p.hp))
        &&& self.mp_text.reads(status_line("MP"@, p.mp))
        &&& self.hp_meter.max_value() == crate::numeric::max(p.max_hp as int, 1)
        &&& self.hp_meter.value() == crate::numeric::clamp(
            p.hp as int,
            0,
            crate::numeric::max(p.max_hp as int, 1),
        )
        &&& self.mp_meter.max_value() == crate::numeric::max(p.max_mp as int, 1)
        &&& self.mp_meter.value() == crate::numeric::clamp(
            p.mp as int,
            0,
            crate::numeric::max(p.max_mp as int, 1),
        )
    }

    /// The window of the latest change shows `label` above the point
    /// (`middle_x`, `bottom_y`), with six pixels around it.
    pub open spec fn change_shown(&self, middle_x: i32, bottom_y: i32, label: Seq<char>) -> bool {
        let size = self.change_text.size();
        let width = clamp_i32(size.0 + 12);
        let height = clamp_i32(size.1 + 12);
        &&& self.change_visible
        &&& self.change_text.reads(label)
        &&& self.change_text.offset() == (
            clamp_i32(middle_x - div_towards_zero(size.0 as int, 2)),
            clamp_i32(bottom_y - clamp_i32(size.1 + 6)),
        )
        &&& self.change_window.sized(width, height)
        &&& self.change_window.offset() == (
            clamp_i32(middle_x - div_towards_zero(width as int, 2)),
            clamp_i32(bottom_y - height),
        )
    }

    /// The meter of the enemy shows its hit points.
    pub open spec fn enemy_shows(&self) -> bool {
        self.enemy_hp_meter.value() == crate::numeric::clamp(
            self.enemy.hp as int,
            0,
            self.enemy_hp_meter.max_value() as int,
        )
    }

    /// Whether a figure that blinks is to be seen at tick `ticks` of its
    /// blinking: it is hidden for two ticks and seen for two, in turn.
    pub open spec fn blink_seen(ticks: u8) -> bool {
        (ticks as int - 1) % 4 >= 2
    }

    /// What is to be seen in a phase: the enemy, the status of the
    /// player, the menu, and the latest change of points.
    pub open spec fn seen(phase: BattlePhase) -> (bool, bool, bool, bool) {
        match phase {
            BattlePhase::Start | BattlePhase::ActionReveal => (true, true, false, false),
            BattlePhase::ActionMenu { .. }
            | BattlePhase::MagicMenu { .. }
            | BattlePhase::ItemMenu { .. } => (true, true, true, false),
            BattlePhase::EnemyHit { ticks, .. } => (Battle::blink_seen(ticks), true, false, false),
            BattlePhase::StatusBlink { ticks, .. } => (
                true,
                Battle::blink_seen(ticks),
                false,
                false,
            ),
            BattlePhase::MessageReveal { next } | BattlePhase::MessageShown { next } => match next {
                AfterMessage::EndOfAction
                | AfterMessage::RestoreMp { .. }
                | AfterMessage::EnemyAttacked => (true, true, false, true),
                AfterMessage::RanAway => (true, true, false, false),
                AfterMessage::Defeated | AfterMessage::LevelUp => (false, true, false, false),
            },
        }
    }

    /// What is to be seen is what goes with `phase`, and the meter of the
    /// enemy shows its hit points.
    pub open spec fn seen_as(&self, phase: BattlePhase) -> bool {
        &&& (self.enemy_visible, self.status_visible, self.menu_visible, self.change_visible)
            == Battle::seen(phase)
        &&& self.enemy_shows()
    }

    /// The lines of the player's magic in the menu.
    pub open spec fn magic_entries(p: &Progress) -> Seq<Seq<char>> {
        seq![
            p.magic@[0].spec_battle_menu_entry(),
            p.magic@[1].spec_battle_menu_entry(),
            p.magic@[2].spec_battle_menu_entry(),
            p.magic@[3].spec_battle_menu_entry(),
        ]
    }

    /// The lines of the player's items in the menu.
    pub open spec fn item_entries(p: &Progress) -> Seq<Seq<char>> {
        seq![
            p.items@[0].spec_battle_menu_entry(),
            p.items@[1].spec_battle_menu_entry(),
            p.items@[2].spec_battle_menu_entry(),
            p.items@[3].spec_battle_menu_entry(),
        ]
    }

    /// A poll that ends in this phase lets a tick pass for the enemy's
    /// picture: the phases of the menus, and the one of a message that
    /// waits to be confirmed.
    pub open spec fn waits(phase: BattlePhase) -> bool {
        phase is ActionMenu || phase is MagicMenu || phase is ItemMenu || phase is MessageShown
    }

    /// The picture of the enemy is a tick on where the battle has come to
    /// a phase that waits, and else what it was.
    pub open spec fn enemy_played(&self, before: &Battle) -> bool {
        self.enemy_sprite.playback() == if Battle::waits(self.phase) {
            before.enemy_sprite.after_tick()
        } else {
            before.enemy_sprite.playback()
        }
    }

    /// The battle shows what goes with its phase and the progress of the
    /// player: the status, what is to be seen and what is hidden, and in
    /// the menus their entries with the cursor beside the one that is
    /// selected. What a message says is told where the message is put up.
    pub open spec fn shows(&self, p: &Progress) -> bool {
        &&& self.seen_as(self.phase)
        &&& !(self.phase is Start) ==> self.status_shows(p)
        &&& match self.phase {
            BattlePhase::ActionReveal => {
                &&& self.message_text.holds(
                    action_message(self.enemy.name@),
                    self.message_text.shown(),
                )
                &&& self.menu_text.reads(action_menu_line(self.follow_up is Some))
            },
            BattlePhase::ActionMenu { selection } => {
                &&& self.message_text.reads(action_message(self.enemy.name@))
                &&& self.menu_text.reads(action_menu_line(self.follow_up is Some))
                &&& self.cursor.offset() == Battle::action_cursor_place(selection as int)
            },
            BattlePhase::MagicMenu { selection } => {
                &&& self.message_text.reads("Cast magic:"@)
                &&& self.menu_text.reads(grid_menu(Battle::magic_entries(p), 13, "  "@))
                &&& self.cursor.offset() == Battle::grid_cursor_place(selection as int)
            },
            BattlePhase::ItemMenu { selection } => {
                &&& self.message_text.reads("Use item:"@)
                &&& self.menu_text.reads(grid_menu(Battle::item_entries(p), 11, "    "@))
                &&& self.cursor.offset() == Battle::grid_cursor_place(selection as int)
            },
            _ => true,
        }
    }

    fn show_change_text_at(&mut self, middle_x: i32, bottom_y: i32, msg: &str)
        requires
            old(self).widgets_wf(),
        ensures
            final(self).same_frame(old(self)),
            final(self).change_shown(middle_x, bottom_y, msg@),
            *final(self) == (Battle {
                change_text: final(self).change_text,
                change_window: final(self).change_window,
                change_visible: true,
                ..*old(self)
            }),
            final(self).widgets_wf(),
            final(self).same_core(old(self)),
            final(self).message_text == old(self).message_text,
            final(self).change_visible,
    {
        self.change_text.set_text(msg);
        let text_width = self.change_text.width();
        let text_height = self.change_text.height();
        let width = add_clamped(text_width, 12);
        let height = add_clamped(text_height, 12);
        self.change_text.set_offset(
            sub_clamped(middle_x, text_width / 2),
            sub_clamped(bottom_y, add_clamped(text_height, 6)),
        );
        self.change_window.resize(width, height);
        self.change_window.set_offset(sub_clamped(middle_x, width / 2), sub_clamped(bottom_y, height));
        self.change_visible = true;
    }

    fn show_status_change(&mut self, msg: &str)
        requires
            old(self).widgets_wf(),
        ensures
            final(self).same_frame(old(self)),
            final(self).change_shown(276, 122, msg@),
            *final(self) == (Battle {
                change_text: final(self).change_text,
                change_window: final(self).change_window,
                change_visible: true,
                ..*old(self)
            }),
            final(self).widgets_wf(),
            final(self).same_core(old(self)),
            final(self).message_text == old(self).message_text,
    {
        self.show_change_text_at(STATUS_X + 26, STATUS_Y + 6, msg);
    }

    fn update_status(&mut self, progress: &Progress)
        requires
            old(self).widgets_wf(),
        ensures
            final(self).same_frame(old(self)),
            final(self).status_shows(progress),
            *final(self) == (Battle {
                hp_text: final(self).hp_text,
                mp_text: final(self).mp_text,
                hp_meter: final(self).hp_meter,
                mp_meter: final(self).mp_meter,
                ..*old(self)
            }),
            final(self).widgets_wf(),
            final(self).same_core(old(self)),
            final(self).message_text == old(self).message_text,
    {
        let hp = make_status_line("HP", progress.hp);
        self.hp_text.set_text(hp.as_str());
        let mp = make_status_line("MP", progress.mp);
        self.mp_text.set_text(mp.as_str());
        self.hp_meter.set_value_and_max(progress.hp, progress.max_hp);
        self.mp_meter.set_value_and_max(progress.mp, progress.max_mp);
    }

    fn update_action_cursor(&mut self, which: usize)
        requires
            which <= 3,
        ensures
            final(self).same_frame(old(self)),
            final(self).cursor.offset() == Battle::action_cursor_place(which as int),
            *final(self) == (Battle { cursor: final(self).cursor, ..*old(self) }),
            final(self).same_core(old(self)),
            final(self).message_text == old(self).message_text,
            old(self).widgets_wf() ==> final(self).widgets_wf(),
    {
        let column: i32 = if which == 0 {
            0
        } else if which == 1 {
            11
        } else if which == 2 {
            21
        } else {
            30
        };
        self.cursor.set_offset(MESSAGE_X + 8 + column * 6, MESSAGE_Y + 24 + 8);
    }

    fn update_grid_cursor(&mut self, which: usize)
        requires
            which <= 4,
        ensures
            final(self).same_frame(old(self)),
            final(self).cursor.offset() == Battle::grid_cursor_place(which as int),
            *final(self) == (Battle { cursor: final(self).cursor, ..*old(self) }),
            final(self).same_core(old(self)),
            final(self).message_text == old(self).message_text,
            old(self).widgets_wf() ==> final(self).widgets_wf(),
    {
        let column: i32 = if which == 0 {
            0
        } else if which == 1 || which == 3 {
            7
        } else {
            22
        };
        let row: i32 = if which >= 3 {
            1
        } else {
            0
        };
        self.cursor.set_offset(MESSAGE_X + 8 + column * 6, MESSAGE_Y + 24 + row * 8);
    }

    fn set_all_text(&mut self)
        requires
            old(self).widgets_wf(),
        ensures
            final(self).same_frame(old(self)),
            final(self).message_text.reads(action_message(old(self).enemy.name@)),
            final(self).menu_text.reads(action_menu_line(old(self).follow_up is Some)),
            *final(self) == (Battle {
                message_text: final(self).message_text,
                menu_text: final(self).menu_text,
                ..*old(self)
            }),
            final(self).widgets_wf(),
            final(self).same_core(old(self)),
            final(self).message_text.holds(
                action_message(old(self).enemy.name@),
                final(self).message_text.glyphs().len(),
            ),
    {
        let message = make_action_message(self.enemy.name);
        self.message_text.set_text(message.as_str());
        let line = make_action_menu_line(self.follow_up.is_some());
        self.menu_text.set_text(line.as_str());
    }

    /// The action menu is open at an entry.
    fn open_action_menu(&mut self, selection: usize)
        requires
            old(self).widgets_wf(),
            selection <= 3,
        ensures
            final(self).same_frame(old(self)),
            final(self).cursor.offset() == Battle::action_cursor_place(selection as int),
            final(self).enemy_sprite.playback() == old(self).enemy_sprite.after_tick(),
            *final(self) == (Battle {
                menu_visible: true,
                cursor: final(self).cursor,
                enemy_sprite: final(self).enemy_sprite,
                phase: final(self).phase,
                ..*old(self)
            }),
            final(self).wf(),
            final(self).same_fight(old(self)),
            final(self).phase == (BattlePhase::ActionMenu { selection }),
            final(self).message_text == old(self).message_text,
    {
        self.menu_visible = true;
        self.update_action_cursor(selection);
        self.enemy_sprite.animate();
        self.phase = BattlePhase::ActionMenu { selection };
    }

    /// The message `message` was put up, still hidden, to be followed by `next`.
    pub open spec fn message_begun(
        &self,
        before: &Battle,
        next: AfterMessage,
        message: Seq<char>,
    ) -> bool {
        &&& self.wf()
        &&& self.same_fight(before)
        &&& self.phase == (BattlePhase::MessageReveal { next })
        &&& self.message_text.holds(message, 0)
    }

    fn begin_message(&mut self, message: &str, next: AfterMessage)
        requires
            old(self).widgets_wf(),
        ensures
            final(self).same_frame(old(self)),
            final(self).enemy_played(old(self)),
            final(self).message_text.holds(message@, 0),
            *final(self) == (Battle {
                message_text: final(self).message_text,
                phase: final(self).phase,
                ..*old(self)
            }),
            final(self).message_begun(old(self), next, message@),
    {
        self.message_text.set_text(message);
        self.message_text.hide_all_chars();
        self.phase = BattlePhase::MessageReveal { next };
    }

    /// A turn began: the follow-up is one turn older, and the call to
    /// action is put up, still hidden; where it has nothing to show the
    /// action menu is open at once.
    pub open spec fn turn_begun(&self, before: &Battle) -> bool {
        &&& self.wf()
        &&& self.enemy == before.enemy
        &&& self.boss_fight == before.boss_fight
        &&& self.follow_up == decayed(before.follow_up)
        &&& self.message_text.holds(action_message(before.enemy.name@), 0)
        &&& self.menu_text.reads(action_menu_line(self.follow_up is Some))
        &&& self.phase == if self.message_text.glyphs().len() == 0 {
            BattlePhase::ActionMenu { selection: 0 }
        } else {
            BattlePhase::ActionReveal
        }
    }

    fn begin_turn(&mut self)
        requires
            old(self).widgets_wf(),
        ensures
            final(self).same_frame(old(self)),
            final(self).enemy_played(old(self)),
            *final(self) == (Battle {
                follow_up: final(self).follow_up,
                message_text: final(self).message_text,
                menu_text: final(self).menu_text,
                menu_visible: final(self).menu_visible,
                cursor: final(self).cursor,
                enemy_sprite: final(self).enemy_sprite,
                phase: final(self).phase,
                ..*old(self)
            }),
            forall|p: &Progress|
                old(self).seen_as(BattlePhase::Start) && old(self).status_shows(p)
                    ==> #[trigger] final(self).shows(p),
            final(self).turn_begun(old(self)),
    {
        self.follow_up = match self.follow_up {
            Some((magic, turns)) => if turns > 0 {
                Some((magic, turns - 1))
            } else {
                None
            },
            None => None,
        };
        self.set_all_text();
        self.message_text.hide_all_chars();
        if self.message_text.all_chars_shown() {
            self.open_action_menu(0);
        } else {
            self.phase = BattlePhase::ActionReveal;
        }
    }

    /// Nothing changed but the player's progress and the random numbers.
    pub open spec fn only_progress(ctx: &ModeContext, before: &ModeContext) -> bool {
        *ctx == (ModeContext { progress: ctx.progress, rng: ctx.rng, ..*before })
    }

    /// The enemy began to strike back: the damage is rolled, and the
    /// player's status blinks.
    pub open spec fn strike_begun(&self, before: &Battle, ctx: &ModeContext, ctx_before: &ModeContext) -> bool {
        let roll = sample(ctx_before.rng@, 100, MAX_DRAWS as nat);
        &&& self.wf()
        &&& self.same_fight(before)
        &&& self.phase == (BattlePhase::StatusBlink {
            ticks: 1,
            damage: damage_dealt(
                before.enemy.attack as int,
                ctx_before.progress.defense as int,
                2,
                roll.0 as int,
            ),
        })
        &&& Battle::only_progress(ctx, ctx_before)
        &&& ctx.progress == ctx_before.progress
        &&& ctx.rng@ == roll.1
    }

    /// The player's action is over: a defeated enemy is announced, and any other strikes back.
    pub open spec fn action_ended(&self, before: &Battle, ctx: &ModeContext, ctx_before: &ModeContext) -> bool {
        if before.enemy.hp <= 0 {
            self.message_begun(
                before,
                AfterMessage::Defeated,
                defeat_message(before.enemy.name@, before.enemy.exp),
            ) && *ctx == *ctx_before
        } else {
            self.strike_begun(before, ctx, ctx_before)
        }
    }

    fn end_of_action(&mut self, mctx: &mut ModeContext)
        requires
            old(self).widgets_wf(),
        ensures
            final(self).same_frame(old(self)),
            final(self).enemy_played(old(self)),
            old(self).seen_as(BattlePhase::Start) ==> final(self).shows(&final(mctx).progress),
            Battle::only_progress(final(mctx), old(mctx)),
            old(mctx).wf() ==> final(mctx).wf(),
            final(self).action_ended(old(self), final(mctx), old(mctx)),
    {
        self.update_status(&mctx.progress);
        if self.enemy.hp <= 0 {
            self.enemy_visible = false;
            let message = make_defeat_message(self.enemy.name, self.enemy.exp);
            self.begin_message(message.as_str(), AfterMessage::Defeated);
        } else {
            let damage = calc_base_damage(self.enemy.attack, mctx.progress.defense, &mut mctx.rng);
            self.status_visible = false;
            self.phase = BattlePhase::StatusBlink { ticks: 1, damage };
        }
    }

    /// The item that was used restored the magic points that it restores,
    /// if any, and the action went on from there.
    pub open spec fn mp_restored(
        &self,
        before: &Battle,
        ctx: &ModeContext,
        ctx_before: &ModeContext,
        item: Item,
        heal_mp: i32,
    ) -> bool {
        if heal_mp > 0 {
            &&& self.message_begun(
                before,
                AfterMessage::EndOfAction,
                item_message(item, heal_mp, "MP"@),
            )
            &&& self.change_shown(276, 122, change_label(heal_mp, "MP"@))
            &&& Battle::only_progress(ctx, ctx_before)
            &&& ctx.rng == ctx_before.rng
            &&& ctx.progress == (Progress {
                mp: restored(ctx_before.progress.mp, ctx_before.progress.max_mp, heal_mp),
                ..ctx_before.progress
            })
        } else {
            self.action_ended(before, ctx, ctx_before)
        }
    }

    fn restore_mp(&mut self, mctx: &mut ModeContext, item: Item, heal_mp: i32)
        requires
            old(self).widgets_wf(),
        ensures
            final(self).same_frame(old(self)),
            final(self).enemy_played(old(self)),
            old(self).seen_as(BattlePhase::Start) ==> final(self).shows(&final(mctx).progress),
            Battle::only_progress(final(mctx), old(mctx)),
            old(mctx).wf() ==> final(mctx).wf(),
            final(self).mp_restored(old(self), final(mctx), old(mctx), item, heal_mp),
    {
        if heal_mp > 0 {
            let label = make_change_label(heal_mp, "MP");
            self.show_status_change(label.as_str());
            mctx.progress.mp = restore(mctx.progress.mp, mctx.progress.max_mp, heal_mp);
            self.update_status(&mctx.progress);
            let message = make_item_message(item, heal_mp, "MP");
            self.begin_message(message.as_str(), AfterMessage::EndOfAction);
        } else {
            self.end_of_action(mctx);
        }
    }

    /// The player gained the levels that the experience pays for, one at
    /// a time with a message each, and the battle is won after the last.
    pub open spec fn levels_gained(
        &self,
        before: &Battle,
        ctx: &ModeContext,
        ctx_before: &ModeContext,
        r: Poll<BattleEvent>,
    ) -> bool {
        let p = ctx_before.progress;
        &&& Battle::only_progress(ctx, ctx_before)
        &&& ctx.rng == ctx_before.rng
        &&& if p.spec_next_exp() is Some && p.exp >= p.spec_next_exp()->0 {
            &&& r is Pending
            &&& self.message_begun(
                before,
                AfterMessage::LevelUp,
                level_message(ctx.progress.level),
            )
            &&& ctx.progress == (Progress {
                exp: (p.exp - p.spec_next_exp()->0) as i32,
                ..p
            }).after_level()
        } else {
            &&& r == Poll::Ready(BattleEvent::Victory)
            &&& self.wf()
            &&& self.same_fight(before)
            &&& self.phase == BattlePhase::Start
            &&& ctx.progress == p
        }
    }

    fn gain_levels(&mut self, mctx: &mut ModeContext) -> (r: Poll<BattleEvent>)
        requires
            old(self).widgets_wf(),
            old(mctx).progress.level >= 1,
        ensures
            final(self).same_frame(old(self)),
            final(self).enemy_played(old(self)),
            old(self).seen_as(BattlePhase::MessageReveal { next: AfterMessage::LevelUp }) && r
                is Pending ==> final(self).shows(&final(mctx).progress),
            Battle::only_progress(final(mctx), old(mctx)),
            old(mctx).wf() ==> final(mctx).wf(),
            final(self).levels_gained(old(self), final(mctx), old(mctx), r),
    {
        if mctx.progress.gain_level_from_exp() {
            self.update_status(&mctx.progress);
            let message = make_level_message(mctx.progress.level);
            self.begin_message(message.as_str(), AfterMessage::LevelUp);
            Poll::Pending
        } else {
            self.phase = BattlePhase::Start;
            Poll::Ready(BattleEvent::Victory)
        }
    }

    /// What follows a message that was confirmed.
    pub open spec fn message_followed(
        &self,
        before: &Battle,
        ctx: &ModeContext,
        ctx_before: &ModeContext,
        next: AfterMessage,
        r: Poll<BattleEvent>,
    ) -> bool {
        match next {
            AfterMessage::EndOfAction => r is Pending && self.action_ended(before, ctx, ctx_before),
            AfterMessage::RestoreMp { item, heal_mp } => r is Pending && self.mp_restored(
                before,
                ctx,
                ctx_before,
                item,
                heal_mp,
            ),
            AfterMessage::RanAway => {
                &&& r == Poll::Ready(BattleEvent::RanAway)
                &&& self.wf()
                &&& self.same_fight(before)
                &&& self.phase == BattlePhase::Start
                &&& *ctx == *ctx_before
            },
            AfterMessage::Defeated => exists|gained: ModeContext|
                {
                    &&& #[trigger] Battle::only_progress(&gained, ctx_before)
                    &&& gained.rng == ctx_before.rng
                    &&& gained.progress == (Progress {
                        exp: clamp_i32(ctx_before.progress.exp + before.enemy.exp),
                        ..ctx_before.progress
                    })
                    &&& self.levels_gained(before, ctx, &gained, r)
                },
            AfterMessage::LevelUp => self.levels_gained(before, ctx, ctx_before, r),
            AfterMessage::EnemyAttacked => if ctx_before.progress.hp <= 0 {
                &&& r == Poll::Ready(BattleEvent::Defeat)
                &&& self.wf()
                &&& self.same_fight(before)
                &&& self.phase == BattlePhase::Start
                &&& *ctx == *ctx_before
            } else {
                r is Pending && self.turn_begun(before) && *ctx == *ctx_before
            },
        }
    }

    fn after_message(&mut self, mctx: &mut ModeContext, next: AfterMessage) -> (r: Poll<
        BattleEvent,
    >)
        requires
            old(self).widgets_wf(),
            old(mctx).progress.level >= 1,
        ensures
            final(self).same_frame(old(self)),
            final(self).enemy_played(old(self)),
            old(self).seen_as(
                match next {
                    AfterMessage::Defeated | AfterMessage::LevelUp => BattlePhase::MessageReveal {
                        next: AfterMessage::LevelUp,
                    },
                    _ => BattlePhase::Start,
                },
            ) && old(self).status_shows(&old(mctx).progress) && r is Pending ==> final(self).shows(
                &final(mctx).progress,
            ),
            Battle::only_progress(final(mctx), old(mctx)),
            old(mctx).wf() ==> final(mctx).wf(),
            final(self).message_followed(old(self), final(mctx), old(mctx), next, r),
    {
        match next {
            AfterMessage::EndOfAction => {
                self.end_of_action(mctx);
                Poll::Pending
            },
            AfterMessage::RestoreMp { item, heal_mp } => {
                self.restore_mp(mctx, item, heal_mp);
                Poll::Pending
            },
            AfterMessage::RanAway => {
                self.phase = BattlePhase::Start;
                Poll::Ready(BattleEvent::RanAway)
            },
            AfterMessage::Defeated => {
                mctx.progress.exp = add_clamped(mctx.progress.exp, self.enemy.exp);
                let ghost gained = *mctx;
                let r = self.gain_levels(mctx);
                assert(Battle::only_progress(&gained, old(mctx)));
                r
            },
            AfterMessage::LevelUp => self.gain_levels(mctx),
            AfterMessage::EnemyAttacked => {
                if mctx.progress.hp <= 0 {
                    self.phase = BattlePhase::Start;
                    Poll::Ready(BattleEvent::Defeat)
                } else {
                    self.begin_turn();
                    Poll::Pending
                }
            },
        }
    }
}

impl Battle {
    /// Number of glyphs of the message shown after one more step of revealing it.
    pub open spec fn revealed_next(&self) -> nat {
        if self.message_text.shown() < self.message_text.glyphs().len() {
            self.message_text.shown() + 1
        } else {
            self.message_text.shown()
        }
    }

    /// The call to action showed one glyph more; once it shows all, the
    /// action menu is open at its first entry.
    pub open spec fn action_revealed(&self, before: &Battle) -> bool {
        &&& self.wf()
        &&& self.same_fight(before)
        &&& self.message_text.same_text(&before.message_text)
        &&& self.message_text.shown() == before.revealed_next()
        &&& self.phase == if self.message_text.shown() == self.message_text.glyphs().len() {
            BattlePhase::ActionMenu { selection: 0 }
        } else {
            BattlePhase::ActionReveal
        }
    }

    fn poll_action_reveal(&mut self)
        requires
            old(self).wf(),
            old(self).phase == BattlePhase::ActionReveal,
        ensures
            final(self).same_frame(old(self)),
            final(self).enemy_played(old(self)),
            forall|p: &Progress| old(self).shows(p) ==> #[trigger] final(self).shows(p),
            final(self).action_revealed(old(self)),
    {
        self.message_text.show_one_char();
        if self.message_text.all_chars_shown() {
            self.open_action_menu(0);
        }
    }

    /// The enemy began to blink from a hit of the player, whose damage is rolled.
    pub open spec fn hit_begun(
        &self,
        before: &Battle,
        ctx: &ModeContext,
        ctx_before: &ModeContext,
        follow_up: Option<(Magic, usize)>,
        magic: Option<Magic>,
    ) -> bool {
        let roll = sample(ctx_before.rng@, 100, MAX_DRAWS as nat);
        &&& self.wf()
        &&& self.enemy == before.enemy
        &&& self.boss_fight == before.boss_fight
        &&& self.follow_up == follow_up
        &&& self.phase == (BattlePhase::EnemyHit {
            ticks: 1,
            damage: damage_dealt(
                ctx_before.progress.attack as int,
                before.enemy.defense as int,
                bonus_doubled(follow_up, before.enemy.weakness),
                roll.0 as int,
            ),
            magic,
        })
        &&& ctx.rng@ == roll.1
    }

    fn begin_hit(&mut self, mctx: &mut ModeContext, magic: Option<Magic>)
        requires
            old(self).widgets_wf(),
        ensures
            final(self).same_frame(old(self)),
            final(self).enemy_played(old(self)),
            old(self).enemy_shows() && old(self).status_visible && !old(self).change_visible && old(self).status_shows(&old(mctx).progress) ==> final(self).shows(&final(mctx).progress),
            old(mctx).wf() ==> final(mctx).wf(),
            final(self).hit_begun(old(self), final(mctx), old(mctx), old(self).follow_up, magic),
            Battle::only_progress(final(mctx), old(mctx)),
            final(mctx).progress == old(mctx).progress,
    {
        let damage = calc_magic_damage(
            mctx.progress.attack,
            self.enemy.defense,
            self.follow_up,
            self.enemy.weakness,
            &mut mctx.rng,
        );
        self.menu_visible = false;
        self.enemy_visible = false;
        self.phase = BattlePhase::EnemyHit { ticks: 1, damage, magic };
    }

    /// The entry of the action menu after an arrow key.
    pub open spec fn action_moved(selection: int, left: bool, right: bool) -> int {
        if left {
            if selection == 0 {
                3
            } else {
                selection - 1
            }
        } else if right {
            if selection == 3 {
                0
            } else {
                selection + 1
            }
        } else {
            selection
        }
    }

    /// What a poll makes of the action menu. Confirm takes the entry:
    /// fight hits the enemy, magic and item open their menus, and run
    /// ends the battle unless the enemy is a boss. Left and right move
    /// through the entries and around their ends.
    pub open spec fn action_chosen(
        &self,
        before: &Battle,
        ctx: &ModeContext,
        ctx_before: &ModeContext,
        selection: usize,
    ) -> bool {
        let input = &ctx_before.input;
        if input.key_pressed(GameKey::Confirm) {
            if selection == 0 {
                &&& self.hit_begun(before, ctx, ctx_before, before.follow_up, None)
                &&& Battle::only_progress(ctx, ctx_before)
                &&& ctx.progress == ctx_before.progress
            } else if selection == 1 {
                &&& self.wf()
                &&& self.same_fight(before)
                &&& self.phase == (BattlePhase::MagicMenu { selection: 0 })
                &&& *ctx == *ctx_before
            } else if selection == 2 {
                &&& self.wf()
                &&& self.same_fight(before)
                &&& self.phase == (BattlePhase::ItemMenu { selection: 0 })
                &&& *ctx == *ctx_before
            } else if !before.boss_fight {
                self.message_begun(before, AfterMessage::RanAway, "Coric ran away!"@) && *ctx
                    == *ctx_before
            } else {
                &&& self.wf()
                &&& self.same_fight(before)
                &&& self.phase == (BattlePhase::ActionMenu { selection })
                &&& *ctx == *ctx_before
            }
        } else {
            &&& self.wf()
            &&& self.same_fight(before)
            &&& self.phase == (BattlePhase::ActionMenu {
                selection: Battle::action_moved(
                    selection as int,
                    input.key_pressed(GameKey::Left),
                    input.key_pressed(GameKey::Right),
                ) as usize,
            })
            &&& *ctx == *ctx_before
        }
    }

    fn open_magic_menu(&mut self, progress: &Progress)
        requires
            old(self).widgets_wf(),
            progress.wf(),
        ensures
            final(self).same_frame(old(self)),
            final(self).enemy_played(old(self)),
            old(self).seen_as(BattlePhase::ActionMenu { selection: 0 }) && old(self).status_shows(
                progress,
            ) ==> final(self).shows(progress),
            final(self).wf(),
            final(self).same_fight(old(self)),
            final(self).phase == (BattlePhase::MagicMenu { selection: 0 }),
    {
        self.message_text.set_text("Cast magic:");
        let a = progress.magic[0].battle_menu_entry();
        let b = progress.magic[1].battle_menu_entry();
        let c = progress.magic[2].battle_menu_entry();
        let d = progress.magic[3].battle_menu_entry();
        let menu = make_grid_menu(a.as_str(), b.as_str(), c.as_str(), d.as_str(), 13, "  ");
        self.menu_text.set_text(menu.as_str());
        self.update_grid_cursor(0);
        self.enemy_sprite.animate();
        self.phase = BattlePhase::MagicMenu { selection: 0 };
    }

    fn open_item_menu(&mut self, progress: &Progress)
        requires
            old(self).widgets_wf(),
            progress.wf(),
        ensures
            final(self).same_frame(old(self)),
            final(self).enemy_played(old(self)),
            old(self).seen_as(BattlePhase::ActionMenu { selection: 0 }) && old(self).status_shows(
                progress,
            ) ==> final(self).shows(progress),
            final(self).wf(),
            final(self).same_fight(old(self)),
            final(self).phase == (BattlePhase::ItemMenu { selection: 0 }),
    {
        self.message_text.set_text("Use item:");
        let a = progress.items[0].battle_menu_entry();
        let b = progress.items[1].battle_menu_entry();
        let c = progress.items[2].battle_menu_entry();
        let d = progress.items[3].battle_menu_entry();
        let menu = make_grid_menu(a.as_str(), b.as_str(), c.as_str(), d.as_str(), 11, "    ");
        self.menu_text.set_text(menu.as_str());
        self.update_grid_cursor(0);
        self.enemy_sprite.animate();
        self.phase = BattlePhase::ItemMenu { selection: 0 };
    }

    /// Back in the action menu at an entry, after a menu of its own was left.
    fn back_to_action_menu(&mut self, selection: usize)
        requires
            old(self).widgets_wf(),
            selection <= 3,
        ensures
            final(self).same_frame(old(self)),
            final(self).enemy_played(old(self)),
            forall|p: &Progress|
                old(self).enemy_shows() && old(self).enemy_visible && old(self).status_visible
                    && !old(self).change_visible && old(self).status_shows(p)
                    ==> #[trigger] final(self).shows(p),
            final(self).wf(),
            final(self).same_fight(old(self)),
            final(self).phase == (BattlePhase::ActionMenu { selection }),
    {
        self.set_all_text();
        self.open_action_menu(selection);
    }

    fn poll_action_menu(&mut self, mctx: &mut ModeContext, selection: usize)
        requires
            old(self).phase == (BattlePhase::ActionMenu { selection }),
            old(self).wf(),
            old(mctx).wf(),
            selection <= 3,
        ensures
            final(self).same_frame(old(self)),
            final(self).enemy_played(old(self)),
            old(self).shows(&old(mctx).progress) ==> final(self).shows(&final(mctx).progress),
            Battle::only_progress(final(mctx), old(mctx)),
            old(mctx).wf() ==> final(mctx).wf(),
            final(self).action_chosen(old(self), final(mctx), old(mctx), selection),
    {
        if mctx.input.is_key_pressed(GameKey::Confirm) {
            if selection == 0 {
                self.begin_hit(mctx, None);
            } else if selection == 1 {
                self.open_magic_menu(&mctx.progress);
            } else if selection == 2 {
                self.open_item_menu(&mctx.progress);
            } else if !self.boss_fight {
                self.menu_visible = false;
                self.begin_message("Coric ran away!", AfterMessage::RanAway);
            } else {
                self.back_to_action_menu(selection);
            }
        } else if mctx.input.is_key_pressed(GameKey::Left) {
            let moved = if selection == 0 {
                3
            } else {
                selection - 1
            };
            self.open_action_menu(moved);
        } else if mctx.input.is_key_pressed(GameKey::Right) {
            let moved = if selection == 3 {
                0
            } else {
                selection + 1
            };
            self.open_action_menu(moved);
        } else {
            self.open_action_menu(selection);
        }
    }

    /// The player cast the magic of a slot: it costs its magic points, and
    /// it heals the player or hits the enemy, which then is open to a
    /// follow-up.
    pub open spec fn magic_cast(
        &self,
        before: &Battle,
        ctx: &ModeContext,
        ctx_before: &ModeContext,
        choice: int,
    ) -> bool {
        let p = ctx_before.progress;
        let magic = p.magic@[choice].magic;
        let paid = clamp_i32(p.mp - magic.mp_cost());
        &&& Battle::only_progress(ctx, ctx_before)
        &&& if magic == Magic::Heal {
            &&& self.message_begun(
                before,
                AfterMessage::EndOfAction,
                heal_message(half_up(p.max_hp)),
            )
            &&& self.change_shown(276, 122, change_label(half_up(p.max_hp), ""@))
            &&& ctx.rng == ctx_before.rng
            &&& ctx.progress == (Progress {
                mp: paid,
                hp: restored(p.hp, p.max_hp, half_up(p.max_hp)),
                ..p
            })
        } else {
            &&& ctx.progress == (Progress { mp: paid, ..p })
            &&& exists|paid_ctx: ModeContext|
                {
                    &&& #[trigger] Battle::only_progress(&paid_ctx, ctx_before)
                    &&& paid_ctx.rng == ctx_before.rng
                    &&& paid_ctx.progress == ctx.progress
                    &&& self.hit_begun(before, ctx, &paid_ctx, Some((magic, 1usize)), Some(magic))
                }
        }
    }

    fn cast_magic(&mut self, mctx: &mut ModeContext, choice: usize)
        requires
            old(self).widgets_wf(),
            old(mctx).wf(),
            choice < NUM_SLOTS,
        ensures
            final(self).same_frame(old(self)),
            final(self).enemy_played(old(self)),
            old(self).seen_as(BattlePhase::ActionMenu { selection: 0 }) && old(self).status_shows(
                &old(mctx).progress,
            ) ==> final(self).shows(&final(mctx).progress),
            Battle::only_progress(final(mctx), old(mctx)),
            old(mctx).wf() ==> final(mctx).wf(),
            final(self).magic_cast(old(self), final(mctx), old(mctx), choice as int),
    {
        let magic = mctx.progress.magic[choice].magic;
        self.menu_visible = false;
        mctx.progress.mp = sub_clamped(mctx.progress.mp, magic.mp_cost());
        self.update_status(&mctx.progress);
        match magic {
            Magic::Heal => {
                let heal_amount = half(mctx.progress.max_hp);
                let label = make_change_label(heal_amount, "");
                self.show_status_change(label.as_str());
                mctx.progress.hp = restore(mctx.progress.hp, mctx.progress.max_hp, heal_amount);
                self.update_status(&mctx.progress);
                let message = make_heal_message(heal_amount);
                self.begin_message(message.as_str(), AfterMessage::EndOfAction);
            },
            _ => {
                self.follow_up = Some((magic, 1));
                let ghost paid_ctx = *mctx;
                self.begin_hit(mctx, Some(magic));
                assert(Battle::only_progress(&paid_ctx, old(mctx)));
                assert(self.hit_begun(old(self), mctx, &paid_ctx, Some((magic, 1usize)), Some(magic)));
            },
        }
    }

    /// What a poll makes of the magic menu. Cancel and the entry back
    /// lead back to the action menu. Confirm casts the magic of the entry
    /// where the player knows it and has the magic points. The arrow keys
    /// move through the entries.
    pub open spec fn magic_chosen(
        &self,
        before: &Battle,
        ctx: &ModeContext,
        ctx_before: &ModeContext,
        selection: usize,
    ) -> bool {
        let input = &ctx_before.input;
        let p = ctx_before.progress;
        if input.key_pressed(GameKey::Cancel) || (input.key_pressed(GameKey::Confirm) && selection
            == 0) {
            &&& self.wf()
            &&& self.same_fight(before)
            &&& self.phase == (BattlePhase::ActionMenu { selection: 1 })
            &&& *ctx == *ctx_before
        } else if input.key_pressed(GameKey::Confirm) {
            if p.magic@[selection - 1].known && p.mp >= p.magic@[selection - 1].magic.mp_cost() {
                self.magic_cast(before, ctx, ctx_before, selection - 1)
            } else {
                &&& self.wf()
                &&& self.same_fight(before)
                &&& self.phase == (BattlePhase::MagicMenu { selection })
                &&& *ctx == *ctx_before
            }
        } else {
            &&& self.wf()
            &&& self.same_fight(before)
            &&& self.phase == (BattlePhase::MagicMenu {
                selection: grid_moved(
                    selection as int,
                    input.key_pressed(GameKey::Up) || input.key_pressed(GameKey::Down),
                    input.key_pressed(GameKey::Left),
                    input.key_pressed(GameKey::Right),
                ) as usize,
            })
            &&& *ctx == *ctx_before
        }
    }

    fn move_grid_cursor(&mut self, mctx: &ModeContext, selection: usize) -> (moved: usize)
        requires
            old(self).wf(),
            selection <= 4,
        ensures
            final(self).same_frame(old(self)),
            final(self).cursor.offset() == Battle::grid_cursor_place(moved as int),
            final(self).enemy_sprite.playback() == old(self).enemy_sprite.after_tick(),
            *final(self) == (Battle {
                cursor: final(self).cursor,
                enemy_sprite: final(self).enemy_sprite,
                ..*old(self)
            }),
            final(self).widgets_wf(),
            final(self).same_core(old(self)),
            moved == grid_moved(
                selection as int,
                mctx.input.key_pressed(GameKey::Up) || mctx.input.key_pressed(GameKey::Down),
                mctx.input.key_pressed(GameKey::Left),
                mctx.input.key_pressed(GameKey::Right),
            ),
            moved <= 4,
    {
        let up_down = mctx.input.is_key_pressed(GameKey::Up) || mctx.input.is_key_pressed(
            GameKey::Down,
        );
        let moved = move_in_grid(
            selection,
            up_down,
            mctx.input.is_key_pressed(GameKey::Left),
            mctx.input.is_key_pressed(GameKey::Right),
        );
        self.update_grid_cursor(moved);
        self.enemy_sprite.animate();
        moved
    }

    fn poll_magic_menu(&mut self, mctx: &mut ModeContext, selection: usize)
        requires
            old(self).wf(),
            old(mctx).wf(),
            old(self).phase == (BattlePhase::MagicMenu { selection }),
        ensures
            final(self).same_frame(old(self)),
            final(self).enemy_played(old(self)),
            old(self).shows(&old(mctx).progress) ==> final(self).shows(&final(mctx).progress),
            Battle::only_progress(final(mctx), old(mctx)),
            old(mctx).wf() ==> final(mctx).wf(),
            final(self).magic_chosen(old(self), final(mctx), old(mctx), selection),
    {
        let confirm = mctx.input.is_key_pressed(GameKey::Confirm);
        if mctx.input.is_key_pressed(GameKey::Cancel) || (confirm && selection == 0) {
            self.back_to_action_menu(1);
        } else if confirm {
            let choice = selection - 1;
            let magic_known = mctx.progress.magic[choice].known;
            let mp_cost = mctx.progress.magic[choice].magic.mp_cost();
            if magic_known && mctx.progress.mp >= mp_cost {
                self.cast_magic(mctx, choice);
            } else {
                self.enemy_sprite.animate();
            }
        } else {
            let moved = self.move_grid_cursor(mctx, selection);
            self.phase = BattlePhase::MagicMenu { selection: moved };
        }
    }

    /// The player used the item of a slot: there is one less of it, and
    /// it restores hit points, then magic points.
    pub open spec fn item_used(
        &self,
        before: &Battle,
        ctx: &ModeContext,
        ctx_before: &ModeContext,
        choice: int,
    ) -> bool {
        let p = ctx_before.progress;
        let item = p.items@[choice].item;
        let effect = item_effect(item, p.max_hp, p.max_mp);
        exists|used: ModeContext|
            {
                &&& #[trigger] Battle::only_progress(&used, ctx_before)
                &&& used.rng == ctx_before.rng
                &&& used.progress == (Progress { items: used.progress.items, ..p })
                &&& used.progress.items@ == p.items@.update(
                    choice,
                    crate::progress::ItemSlot { item, amount: clamp_i32(p.items@[choice].amount - 1) },
                )
                &&& if effect.0 > 0 {
                    &&& self.message_begun(
                        before,
                        AfterMessage::RestoreMp { item, heal_mp: effect.1 },
                        item_message(item, effect.0, "HP"@),
                    )
                    &&& self.change_shown(276, 122, change_label(effect.0, ""@))
                    &&& Battle::only_progress(ctx, ctx_before)
                    &&& ctx.rng == ctx_before.rng
                    &&& ctx.progress == (Progress {
                        hp: restored(p.hp, p.max_hp, effect.0),
                        ..used.progress
                    })
                } else {
                    self.mp_restored(before, ctx, &used, item, effect.1)
                }
            }
    }

    fn use_item(&mut self, mctx: &mut ModeContext, choice: usize)
        requires
            old(self).widgets_wf(),
            old(mctx).wf(),
            choice < NUM_SLOTS,
        ensures
            final(self).same_frame(old(self)),
            final(self).enemy_played(old(self)),
            old(self).seen_as(BattlePhase::ActionMenu { selection: 0 }) && old(self).status_shows(
                &old(mctx).progress,
            ) ==> final(self).shows(&final(mctx).progress),
            Battle::only_progress(final(mctx), old(mctx)),
            old(mctx).wf() ==> final(mctx).wf(),
            final(self).item_used(old(self), final(mctx), old(mctx), choice as int),
    {
        self.menu_visible = false;
        let item = mctx.progress.items[choice].item;
        mctx.progress.items[choice].amount = sub_clamped(mctx.progress.items[choice].amount, 1);
        let ghost used = *mctx;
        proof {
            assert(used.progress.items@ =~= old(mctx).progress.items@.update(
                choice as int,
                crate::progress::ItemSlot {
                    item,
                    amount: clamp_i32(old(mctx).progress.items@[choice as int].amount - 1),
                },
            ));
            assert(Battle::only_progress(&used, old(mctx)));
        }
        let (heal_hp, heal_mp): (i32, i32) = match item {
            Item::Salve => (three_tenths(mctx.progress.max_hp), 0),
            Item::XSalve => (mctx.progress.max_hp, 0),
            Item::Tonic => (0, three_tenths(mctx.progress.max_mp)),
            Item::XTonic => (0, mctx.progress.max_mp),
        };
        if heal_hp > 0 {
            let label = make_change_label(heal_hp, "");
            self.show_status_change(label.as_str());
            mctx.progress.hp = restore(mctx.progress.hp, mctx.progress.max_hp, heal_hp);
            self.update_status(&mctx.progress);
            let message = make_item_message(item, heal_hp, "HP");
            self.begin_message(
                message.as_str(),
                AfterMessage::RestoreMp { item, heal_mp },
            );
        } else {
            self.restore_mp(mctx, item, heal_mp);
        }
    }

    /// What a poll makes of the item menu. Cancel and the entry back lead
    /// back to the action menu. Confirm uses the item of the entry where
    /// the player has one. The arrow keys move through the entries.
    pub open spec fn item_chosen(
        &self,
        before: &Battle,
        ctx: &ModeContext,
        ctx_before: &ModeContext,
        selection: usize,
    ) -> bool {
        let input = &ctx_before.input;
        let p = ctx_before.progress;
        if input.key_pressed(GameKey::Cancel) || (input.key_pressed(GameKey::Confirm) && selection
            == 0) {
            &&& self.wf()
            &&& self.same_fight(before)
            &&& self.phase == (BattlePhase::ActionMenu { selection: 2 })
            &&& *ctx == *ctx_before
        } else if input.key_pressed(GameKey::Confirm) {
            if p.items@[selection - 1].amount > 0 {
                self.item_used(before, ctx, ctx_before, selection - 1)
            } else {
                &&& self.wf()
                &&& self.same_fight(before)
                &&& self.phase == (BattlePhase::ItemMenu { selection })
                &&& *ctx == *ctx_before
            }
        } else {
            &&& self.wf()
            &&& self.same_fight(before)
            &&& self.phase == (BattlePhase::ItemMenu {
                selection: grid_moved(
                    selection as int,
                    input.key_pressed(GameKey::Up) || input.key_pressed(GameKey::Down),
                    input.key_pressed(GameKey::Left),
                    input.key_pressed(GameKey::Right),
                ) as usize,
            })
            &&& *ctx == *ctx_before
        }
    }

    fn poll_item_menu(&mut self, mctx: &mut ModeContext, selection: usize)
        requires
            old(self).wf(),
            old(mctx).wf(),
            old(self).phase == (BattlePhase::ItemMenu { selection }),
        ensures
            final(self).same_frame(old(self)),
            final(self).enemy_played(old(self)),
            old(self).shows(&old(mctx).progress) ==> final(self).shows(&final(mctx).progress),
            Battle::only_progress(final(mctx), old(mctx)),
            old(mctx).wf() ==> final(mctx).wf(),
            final(self).item_chosen(old(self), final(mctx), old(mctx), selection),
    {
        let confirm = mctx.input.is_key_pressed(GameKey::Confirm);
        if mctx.input.is_key_pressed(GameKey::Cancel) || (confirm && selection == 0) {
            self.back_to_action_menu(2);
        } else if confirm {
            let choice = selection - 1;
            if mctx.progress.items[choice].amount > 0 {
                self.use_item(mctx, choice);
            } else {
                self.enemy_sprite.animate();
            }
        } else {
            let moved = self.move_grid_cursor(mctx, selection);
            self.phase = BattlePhase::ItemMenu { selection: moved };
        }
    }

    /// What a poll makes of the blinking enemy. After the last tick the
    /// enemy takes the damage, and the message about it is put up.
    pub open spec fn enemy_blinked(
        &self,
        before: &Battle,
        ticks: u8,
        damage: i32,
        magic: Option<Magic>,
    ) -> bool {
        &&& self.wf()
        &&& self.boss_fight == before.boss_fight
        &&& self.follow_up == before.follow_up
        &&& if ticks < BLINK_TICKS {
            &&& self.enemy == before.enemy
            &&& self.phase == (BattlePhase::EnemyHit { ticks: (ticks + 1) as u8, damage, magic })
        } else {
            &&& self.enemy == (Enemy { hp: hp_after(before.enemy.hp, damage), ..before.enemy })
            &&& self.phase == (BattlePhase::MessageReveal { next: AfterMessage::EndOfAction })
            &&& self.message_text.holds(
                match magic {
                    None => attack_message(damage, before.enemy.name@),
                    Some(m) => magic_message(
                        m,
                        before.enemy.weakness == Some(m),
                        damage,
                        before.enemy.name@,
                    ),
                },
                0,
            )
            &&& self.change_shown(160, 48, crate::strings::decimal(damage as int))
        }
    }

    fn poll_enemy_hit(&mut self, ticks: u8, damage: i32, magic: Option<Magic>)
        requires
            old(self).phase == (BattlePhase::EnemyHit { ticks, damage, magic }),
            old(self).wf(),
            1 <= ticks <= BLINK_TICKS,
        ensures
            final(self).same_frame(old(self)),
            final(self).enemy_played(old(self)),
            forall|p: &Progress| old(self).shows(p) ==> #[trigger] final(self).shows(p),
            final(self).enemy_blinked(old(self), ticks, damage, magic),
    {
        if ticks % 4 == 2 {
            self.enemy_visible = true;
        }
        if ticks < BLINK_TICKS {
            if ticks % 4 == 0 {
                self.enemy_visible = false;
            }
            self.phase = BattlePhase::EnemyHit { ticks: ticks + 1, damage, magic };
        } else {
            self.enemy_hp_meter.set_value(sub_clamped(self.enemy.hp, damage));
            proof {
                self.enemy_hp_meter.lemma_bounds();
            }
            let label = make_number(damage);
            self.show_change_text_at(ENEMY_X + 56, ENEMY_Y + 16, label.as_str());
            self.enemy.hp = take_damage(self.enemy.hp, damage);
            let message = match magic {
                None => make_attack_message(damage, self.enemy.name),
                Some(m) => {
                    let weak = match self.enemy.weakness {
                        Some(w) => w == m,
                        None => false,
                    };
                    make_magic_message(m, weak, damage, self.enemy.name)
                },
            };
            self.begin_message(message.as_str(), AfterMessage::EndOfAction);
        }
    }

    /// What a poll makes of the blinking status. After the last tick the
    /// player takes the damage, and the message about it is put up.
    pub open spec fn status_blinked(
        &self,
        before: &Battle,
        ctx: &ModeContext,
        ctx_before: &ModeContext,
        ticks: u8,
        damage: i32,
    ) -> bool {
        &&& self.wf()
        &&& self.same_fight(before)
        &&& Battle::only_progress(ctx, ctx_before)
        &&& ctx.rng == ctx_before.rng
        &&& if ticks < BLINK_TICKS {
            &&& self.phase == (BattlePhase::StatusBlink { ticks: (ticks + 1) as u8, damage })
            &&& ctx.progress == ctx_before.progress
        } else {
            &&& self.phase == (BattlePhase::MessageReveal { next: AfterMessage::EnemyAttacked })
            &&& self.message_text.holds(enemy_attack_message(damage, before.enemy.name@), 0)
            &&& self.change_shown(276, 122, crate::strings::decimal(damage as int))
            &&& ctx.progress == (Progress {
                hp: hp_after(ctx_before.progress.hp, damage),
                ..ctx_before.progress
            })
        }
    }

    fn poll_status_blink(&mut self, mctx: &mut ModeContext, ticks: u8, damage: i32)
        requires
            old(self).phase == (BattlePhase::StatusBlink { ticks, damage }),
            old(self).wf(),
            1 <= ticks <= BLINK_TICKS,
        ensures
            final(self).same_frame(old(self)),
            final(self).enemy_played(old(self)),
            old(self).shows(&old(mctx).progress) ==> final(self).shows(&final(mctx).progress),
            Battle::only_progress(final(mctx), old(mctx)),
            old(mctx).wf() ==> final(mctx).wf(),
            final(self).status_blinked(old(self), final(mctx), old(mctx), ticks, damage),
    {
        if ticks % 4 == 2 {
            self.status_visible = true;
        }
        if ticks < BLINK_TICKS {
            if ticks % 4 == 0 {
                self.status_visible = false;
            }
            self.phase = BattlePhase::StatusBlink { ticks: ticks + 1, damage };
        } else {
            let label = make_number(damage);
            self.show_status_change(label.as_str());
            mctx.progress.hp = take_damage(mctx.progress.hp, damage);
            self.update_status(&mctx.progress);
            let message = make_enemy_attack_message(damage, self.enemy.name);
            self.begin_message(message.as_str(), AfterMessage::EnemyAttacked);
        }
    }

    /// What a poll makes of a message that is being revealed or waits to
    /// be confirmed. A message that is being revealed shows one glyph
    /// more. A message that shows all glyphs is followed by what comes
    /// next where confirm is pressed, and waits on where it is not.
    pub open spec fn message_polled(
        &self,
        before: &Battle,
        ctx: &ModeContext,
        ctx_before: &ModeContext,
        revealing: bool,
        next: AfterMessage,
        r: Poll<BattleEvent>,
    ) -> bool {
        let shown = if revealing {
            before.revealed_next()
        } else {
            before.message_text.shown()
        };
        if revealing && shown < before.message_text.glyphs().len() {
            &&& r is Pending
            &&& self.wf()
            &&& self.same_core(before)
            &&& self.message_text.same_text(&before.message_text)
            &&& self.message_text.shown() == shown
            &&& *ctx == *ctx_before
        } else if ctx_before.input.key_pressed(GameKey::Confirm) {
            self.message_followed(before, ctx, ctx_before, next, r)
        } else {
            &&& r is Pending
            &&& self.wf()
            &&& self.same_fight(before)
            &&& self.phase == (BattlePhase::MessageShown { next })
            &&& self.message_text.same_text(&before.message_text)
            &&& self.message_text.shown() == shown
            &&& *ctx == *ctx_before
        }
    }

    fn poll_message(&mut self, mctx: &mut ModeContext, revealing: bool, next: AfterMessage) -> (r:
        Poll<BattleEvent>)
        requires
            old(self).wf(),
            old(mctx).wf(),
            old(self).phase == (if revealing {
                BattlePhase::MessageReveal { next }
            } else {
                BattlePhase::MessageShown { next }
            }),
        ensures
            final(self).same_frame(old(self)),
            final(self).enemy_played(old(self)),
            old(self).shows(&old(mctx).progress) && r is Pending ==> final(self).shows(
                &final(mctx).progress,
            ),
            Battle::only_progress(final(mctx), old(mctx)),
            old(mctx).wf() ==> final(mctx).wf(),
            final(self).message_polled(old(self), final(mctx), old(mctx), revealing, next, r),
    {
        if revealing {
            self.message_text.show_one_char();
            if !self.message_text.all_chars_shown() {
                return Poll::Pending;
            }
        }
        if mctx.input.is_key_pressed(GameKey::Confirm) {
            self.change_visible = false;
            let ghost mid = *self;
            let r = self.after_message(mctx, next);
            proof {
                lemma_same_fight_follows(self, &mid, old(self), mctx, old(mctx), next, r);
            }
            r
        } else {
            self.enemy_sprite.animate();
            self.phase = BattlePhase::MessageShown { next };
            Poll::Pending
        }
    }

    /// What one poll makes of the battle and its context.
    pub open spec fn step(
        &self,
        before: &Battle,
        ctx: &ModeContext,
        ctx_before: &ModeContext,
        r: Poll<BattleEvent>,
    ) -> bool {
        &&& self.same_frame(before)
        &&& self.enemy_played(before)
        &&& before.shows(&ctx_before.progress) && r is Pending ==> self.shows(&ctx.progress)
        &&& match before.phase {
            BattlePhase::Start => {
                &&& r is Pending
                &&& self.turn_begun(&Battle { follow_up: None, ..*before })
                &&& *ctx == *ctx_before
            },
            BattlePhase::ActionReveal => {
                &&& r is Pending
                &&& self.action_revealed(before)
                &&& *ctx == *ctx_before
            },
            BattlePhase::ActionMenu { selection } => r is Pending && self.action_chosen(
                before,
                ctx,
                ctx_before,
                selection,
            ),
            BattlePhase::MagicMenu { selection } => r is Pending && self.magic_chosen(
                before,
                ctx,
                ctx_before,
                selection,
            ),
            BattlePhase::ItemMenu { selection } => r is Pending && self.item_chosen(
                before,
                ctx,
                ctx_before,
                selection,
            ),
            BattlePhase::EnemyHit { ticks, damage, magic } => {
                &&& r is Pending
                &&& self.enemy_blinked(before, ticks, damage, magic)
                &&& *ctx == *ctx_before
            },
            BattlePhase::MessageReveal { next } => self.message_polled(
                before,
                ctx,
                ctx_before,
                true,
                next,
                r,
            ),
            BattlePhase::MessageShown { next } => self.message_polled(
                before,
                ctx,
                ctx_before,
                false,
                next,
                r,
            ),
            BattlePhase::StatusBlink { ticks, damage } => r is Pending && self.status_blinked(
                before,
                ctx,
                ctx_before,
                ticks,
                damage,
            ),
        }
    }

    /// Runs the battle up to its next suspension point or to its end.
    pub fn update(&mut self, mctx: &mut ModeContext) -> (r: Poll<BattleEvent>)
        requires
            old(self).wf(),
            old(mctx).wf(),
        ensures
            final(self).same_frame(old(self)),
            final(self).enemy_played(old(self)),
            old(self).shows(&old(mctx).progress) && r is Pending ==> final(self).shows(
                &final(mctx).progress,
            ),
            Battle::only_progress(final(mctx), old(mctx)),
            old(mctx).wf() ==> final(mctx).wf(),
            final(self).wf(),
            final(self).step(old(self), final(mctx), old(mctx), r),
    {
        match self.phase {
            BattlePhase::Start => {
                self.follow_up = None;
                self.update_status(&mctx.progress);
                self.begin_turn();
                Poll::Pending
            },
            BattlePhase::ActionReveal => {
                self.poll_action_reveal();
                Poll::Pending
            },
            BattlePhase::ActionMenu { selection } => {
                self.poll_action_menu(mctx, selection);
                Poll::Pending
            },
            BattlePhase::MagicMenu { selection } => {
                self.poll_magic_menu(mctx, selection);
                Poll::Pending
            },
            BattlePhase::ItemMenu { selection } => {
                self.poll_item_menu(mctx, selection);
                Poll::Pending
            },
            BattlePhase::EnemyHit { ticks, damage, magic } => {
                self.poll_enemy_hit(ticks, damage, magic);
                Poll::Pending
            },
            BattlePhase::MessageReveal { next } => self.poll_message(mctx, true, next),
            BattlePhase::MessageShown { next } => self.poll_message(mctx, false, next),
            BattlePhase::StatusBlink { ticks, damage } => {
                self.poll_status_blink(mctx, ticks, damage);
                Poll::Pending
            },
        }
    }
}

/// What follows a message depends on the fight alone, not on what is shown.
proof fn lemma_same_fight_follows(
    after: &Battle,
    mid: &Battle,
    before: &Battle,
    ctx: &ModeContext,
    ctx_before: &ModeContext,
    next: AfterMessage,
    r: Poll<BattleEvent>,
)
    requires
        mid.same_fight(before),
        after.message_followed(mid, ctx, ctx_before, next, r),
    ensures
        after.message_followed(before, ctx, ctx_before, next, r),
{
    match next {
        AfterMessage::Defeated => {
            let gained = choose|gained: ModeContext|
                {
                    &&& #[trigger] Battle::only_progress(&gained, ctx_before)
                    &&& gained.rng == ctx_before.rng
                    &&& gained.progress == (Progress {
                        exp: clamp_i32(ctx_before.progress.exp + mid.enemy.exp),
                        ..ctx_before.progress
                    })
                    &&& after.levels_gained(mid, ctx, &gained, r)
                };
            assert(Battle::only_progress(&gained, ctx_before));
            assert(after.levels_gained(before, ctx, &gained, r));
        },
        _ => {},
    }
}

/// The cursor mark as a string.
pub fn cursor_str() -> (s: &'static str)
    ensures
        s@ == seq![CURSOR_CHAR],
{
    let s = "\u{25ba}";
    proof {
        reveal_strlit("\u{25ba}");
        assert(s@ =~= seq![CURSOR_CHAR]);
    }
    s
}

} // verus!
