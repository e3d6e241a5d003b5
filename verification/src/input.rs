//! Keyboard state of the game: which game keys are held, and which went
//! down since the latest tick.
use vstd::prelude::*;

verus! {

/// The keys that the game reacts to.
#[derive(Clone, Copy, Debug, PartialEq, Eq, Structural)]
pub enum GameKey {
    DebugQuit,
    DebugBattle,
    DebugLevelUp,
    DebugSteps,
    DebugEquip1,
    DebugEquip2,
    DebugEquip3,
    DebugEquip4,
    DebugBattle1,
    DebugBattle2,
    DebugBattle3,
    DebugBattle4,
    DebugBattle5,
    DebugBattle6,
    DebugMenu,
    Up,
    Down,
    Left,
    Right,
    Confirm,
    Cancel,
}

/// Number of game keys.
pub const NUM_KEYS: usize = 21;

/// Key codes of the keyboard keys that are bound to game keys: the X11 key
/// symbols of the upper-case letters, the digits and the arrow keys.
pub const KEY_0: u16 = 0x0030;

pub const KEY_1: u16 = 0x0031;

pub const KEY_2: u16 = 0x0032;

pub const KEY_3: u16 = 0x0033;

pub const KEY_4: u16 = 0x0034;

pub const KEY_5: u16 = 0x0035;

pub const KEY_6: u16 = 0x0036;

pub const KEY_7: u16 = 0x0037;

pub const KEY_8: u16 = 0x0038;

pub const KEY_9: u16 = 0x0039;

pub const KEY_B: u16 = 0x0042;

pub const KEY_D: u16 = 0x0044;

pub const KEY_L: u16 = 0x004c;

pub const KEY_Q: u16 = 0x0051;

pub const KEY_S: u16 = 0x0053;

pub const KEY_X: u16 = 0x0058;

pub const KEY_Z: u16 = 0x005a;

pub const KEY_RIGHT: u16 = 0xff53;

pub const KEY_LEFT: u16 = 0xff51;

pub const KEY_DOWN: u16 = 0xff54;

pub const KEY_UP: u16 = 0xff52;

impl GameKey {
    /// Position of the key in the key tables.
    pub open spec fn spec_index(self) -> int {
        match self {
            GameKey::DebugQuit => 0,
            GameKey::DebugBattle => 1,
            GameKey::DebugLevelUp => 2,
            GameKey::DebugSteps => 3,
            GameKey::DebugEquip1 => 4,
            GameKey::DebugEquip2 => 5,
            GameKey::DebugEquip3 => 6,
            GameKey::DebugEquip4 => 7,
            GameKey::DebugBattle1 => 8,
            GameKey::DebugBattle2 => 9,
            GameKey::DebugBattle3 => 10,
            GameKey::DebugBattle4 => 11,
            GameKey::DebugBattle5 => 12,
            GameKey::DebugBattle6 => 13,
            GameKey::DebugMenu => 14,
            GameKey::Up => 15,
            GameKey::Down => 16,
            GameKey::Left => 17,
            GameKey::Right => 18,
            GameKey::Confirm => 19,
            GameKey::Cancel => 20,
        }
    }

    pub fn index(self) -> (i: usize)
        ensures
            i == self.spec_index(),
            i < NUM_KEYS,
    {
        match self {
            GameKey::DebugQuit => 0,
            GameKey::DebugBattle => 1,
            GameKey::DebugLevelUp => 2,
            GameKey::DebugSteps => 3,
            GameKey::DebugEquip1 => 4,
            GameKey::DebugEquip2 => 5,
            GameKey::DebugEquip3 => 6,
            GameKey::DebugEquip4 => 7,
            GameKey::DebugBattle1 => 8,
            GameKey::DebugBattle2 => 9,
            GameKey::DebugBattle3 => 10,
            GameKey::DebugBattle4 => 11,
            GameKey::DebugBattle5 => 12,
            GameKey::DebugBattle6 => 13,
            GameKey::DebugMenu => 14,
            GameKey::Up => 15,
            GameKey::Down => 16,
            GameKey::Left => 17,
            GameKey::Right => 18,
            GameKey::Confirm => 19,
            GameKey::Cancel => 20,
        }
    }

    /// The game key that a keyboard key is bound to, if any.
    pub open spec fn bound_to(code: u16) -> Option<GameKey> {
        if code == KEY_Q {
            Some(GameKey::DebugQuit)
        } else if code == KEY_B {
            Some(GameKey::DebugBattle)
        } else if code == KEY_L {
            Some(GameKey::DebugLevelUp)
        } else if code == KEY_S {
            Some(GameKey::DebugSteps)
        } else if code == KEY_1 {
            Some(GameKey::DebugEquip1)
        } else if code == KEY_2 {
            Some(GameKey::DebugEquip2)
        } else if code == KEY_3 {
            Some(GameKey::DebugEquip3)
        } else if code == KEY_4 {
            Some(GameKey::DebugEquip4)
        } else if code == KEY_5 {
            Some(GameKey::DebugBattle1)
        } else if code == KEY_6 {
            Some(GameKey::DebugBattle2)
        } else if code == KEY_7 {
            Some(GameKey::DebugBattle3)
        } else if code == KEY_8 {
            Some(GameKey::DebugBattle4)
        } else if code == KEY_9 {
            Some(GameKey::DebugBattle5)
        } else if code == KEY_0 {
            Some(GameKey::DebugBattle6)
        } else if code == KEY_D {
            Some(GameKey::DebugMenu)
        } else if code == KEY_UP {
            Some(GameKey::Up)
        } else if code == KEY_DOWN {
            Some(GameKey::Down)
        } else if code == KEY_LEFT {
            Some(GameKey::Left)
        } else if code == KEY_RIGHT {
            Some(GameKey::Right)
        } else if code == KEY_Z {
            Some(GameKey::Confirm)
        } else if code == KEY_X {
            Some(GameKey::Cancel)
        } else {
            None
        }
    }

    /// The game key that the keyboard key with this code is bound to; an
    /// error for a key that the game has no use for.
    pub fn try_from(code: u16) -> (r: Result<GameKey, ()>)
        ensures
            r is Ok == (GameKey::bound_to(code) is Some),
            r matches Ok(key) ==> GameKey::bound_to(code) == Some(key),
    {
        if code == KEY_Q {
            Ok(GameKey::DebugQuit)
        } else if code == KEY_B {
            Ok(GameKey::DebugBattle)
        } else if code == KEY_L {
            Ok(GameKey::DebugLevelUp)
        } else if code == KEY_S {
            Ok(GameKey::DebugSteps)
        } else if code == KEY_1 {
            Ok(GameKey::DebugEquip1)
        } else if code == KEY_2 {
            Ok(GameKey::DebugEquip2)
        } else if code == KEY_3 {
            Ok(GameKey::DebugEquip3)
        } else if code == KEY_4 {
            Ok(GameKey::DebugEquip4)
        } else if code == KEY_5 {
            Ok(GameKey::DebugBattle1)
        } else if code == KEY_6 {
            Ok(GameKey::DebugBattle2)
        } else if code == KEY_7 {
            Ok(GameKey::DebugBattle3)
        } else if code == KEY_8 {
            Ok(GameKey::DebugBattle4)
        } else if code == KEY_9 {
            Ok(GameKey::DebugBattle5)
        } else if code == KEY_0 {
            Ok(GameKey::DebugBattle6)
        } else if code == KEY_D {
            Ok(GameKey::DebugMenu)
        } else if code == KEY_UP {
            Ok(GameKey::Up)
        } else if code == KEY_DOWN {
            Ok(GameKey::Down)
        } else if code == KEY_LEFT {
            Ok(GameKey::Left)
        } else if code == KEY_RIGHT {
            Ok(GameKey::Right)
        } else if code == KEY_Z {
            Ok(GameKey::Confirm)
        } else if code == KEY_X {
            Ok(GameKey::Cancel)
        } else {
            Err(())
        }
    }
}

/// No two game keys share a position in the key tables, and no two keyboard
/// keys are bound to the same game key.
pub proof fn lemma_key_tables_are_injective(a: GameKey, b: GameKey, c: u16, d: u16)
    ensures
        a.spec_index() == b.spec_index() ==> a == b,
        0 <= a.spec_index() < NUM_KEYS,
        GameKey::bound_to(c) is Some && GameKey::bound_to(c) == GameKey::bound_to(d) ==> c == d,
{
}

/// The keyboard as the game sees it.
pub struct Input {
    keys_down: [bool; NUM_KEYS],
    keys_pressed: [bool; NUM_KEYS],
}

impl Input {
    /// The key is held down.
    pub closed spec fn key_down(&self, key: GameKey) -> bool {
        self.keys_down@[key.spec_index()]
    }

    /// The key went down since the pressed keys were last reset.
    pub closed spec fn key_pressed(&self, key: GameKey) -> bool {
        self.keys_pressed@[key.spec_index()]
    }

    /// No key is held and none was pressed.
    pub open spec fn idle(&self) -> bool {
        forall|key: GameKey| !self.key_down(key) && !self.key_pressed(key)
    }

    /// What a key that goes down makes of the keyboard: the game key
    /// bound to it is held and pressed, and every other key is as it was.
    pub open spec fn key_went_down(&self, before: &Input, keycode: u16) -> bool {
        forall|key: GameKey|
            if GameKey::bound_to(keycode) == Some(key) {
                self.key_down(key) && self.key_pressed(key)
            } else {
                self.key_down(key) == before.key_down(key) && self.key_pressed(key)
                    == before.key_pressed(key)
            }
    }

    /// What a key that goes up makes of the keyboard: the game key bound
    /// to it is no longer held, every other key is held as it was, and
    /// what was pressed stays pressed.
    pub open spec fn key_went_up(&self, before: &Input, keycode: u16) -> bool {
        forall|key: GameKey|
            self.key_pressed(key) == before.key_pressed(key) && self.key_down(key) == (
            GameKey::bound_to(keycode) != Some(key) && before.key_down(key))
    }

    /// No key is held and none was pressed.
    pub fn new() -> (input: Input)
        ensures
            forall|key: GameKey| !input.key_down(key) && !input.key_pressed(key),
            input.idle(),
    {
        Input { keys_down: [false; NUM_KEYS], keys_pressed: [false; NUM_KEYS] }
    }

    /// Notes that a keyboard key went down: the game key bound to it is now
    /// held and pressed. Other keys are left as they are, and so is
    /// everything where the key is not bound.
    pub fn handle_key_down_event(&mut self, keycode: u16)
        ensures
            forall|key: GameKey|
                GameKey::bound_to(keycode) == Some(key) ==> final(self).key_down(key) && final(self).key_pressed(key),
            forall|key: GameKey|
                GameKey::bound_to(keycode) != Some(key) ==> final(self).key_down(key) == old(self).key_down(key) && final(self).key_pressed(key) == old(self).key_pressed(key),
            final(self).key_went_down(old(self), keycode),
    {
        if let Ok(game_key) = GameKey::try_from(keycode) {
            let i = game_key.index();
            self.keys_down[i] = true;
            self.keys_pressed[i] = true;
            proof {
                assert forall|key: GameKey| GameKey::bound_to(keycode) != Some(key) implies final(self).key_down(key) == old(self).key_down(key) by {
                    lemma_key_tables_are_injective(key, game_key, 0, 0);
                }
            }
        }
    }

    /// Notes that a keyboard key went up: the game key bound to it is no
    /// longer held. What was pressed stays pressed until the next reset.
    pub fn handle_key_up_event(&mut self, keycode: u16)
        ensures
            forall|key: GameKey|
                GameKey::bound_to(keycode) == Some(key) ==> !final(self).key_down(key),
            forall|key: GameKey|
                GameKey::bound_to(keycode) != Some(key) ==> final(self).key_down(key) == old(self).key_down(key),
            forall|key: GameKey| final(self).key_pressed(key) == old(self).key_pressed(key),
            final(self).key_went_up(old(self), keycode),
    {
        if let Ok(game_key) = GameKey::try_from(keycode) {
            let i = game_key.index();
            self.keys_down[i] = false;
        }
    }

    pub fn is_key_down(&self, game_key: GameKey) -> (b: bool)
        ensures
            b == self.key_down(game_key),
    {
        self.keys_down[game_key.index()]
    }

    pub fn is_key_pressed(&self, game_key: GameKey) -> (b: bool)
        ensures
            b == self.key_pressed(game_key),
    {
        self.keys_pressed[game_key.index()]
    }

    /// Forgets which keys were pressed; held keys stay held.
    pub fn reset_keys_pressed(&mut self)
        ensures
            forall|key: GameKey| !final(self).key_pressed(key),
            forall|key: GameKey| final(self).key_down(key) == old(self).key_down(key),
    {
        self.keys_pressed = [false; NUM_KEYS];
    }
}

} // verus!
