//! The enemies of the game and the groups that random encounters draw them from.
use vstd::prelude::*;
use crate::progress::Magic;
use crate::random::{sample, Rng, MAX_DRAWS};
use crate::strings::str_eq;

verus! {

/// A set of enemies that roam one kind of place.
#[derive(Clone, Copy, Debug, PartialEq, Eq, Structural)]
pub enum EncounterGroup {
    Wilderness1,
    Wilderness2,
    Wilderness3,
    EarthCastle,
    WaterCastle,
    FireCastle,
}

/// Number of encounter groups.
pub const NUM_GROUPS: usize = 6;

/// Number of enemies in each encounter group.
pub const GROUP_SIZE: u32 = 4;

/// Something an enemy may do on its turn in place of a plain attack.
pub struct EnemyAction {
    /// Chance of the action in percent.
    pub chance: u32,
    /// What the battle log says, after the enemy's name.
    pub msg: &'static str,
    /// Tenths of the plain damage that the action deals; `None` where it deals none.
    pub damage_factor: Option<u32>,
}

pub struct Enemy {
    pub name: &'static str,
    pub sprite_path: &'static str,
    pub hp: i32,
    pub attack: i32,
    pub defense: i32,
    pub weakness: Option<Magic>,
    pub exp: i32,
    pub actions: Vec<EnemyAction>,
}

/// An enemy action as contracts see it.
pub struct EnemyActionView {
    pub chance: u32,
    pub msg: Seq<char>,
    pub damage_factor: Option<u32>,
}

/// An enemy as contracts see it.
pub struct EnemyView {
    pub name: Seq<char>,
    pub sprite_path: Seq<char>,
    pub hp: i32,
    pub attack: i32,
    pub defense: i32,
    pub weakness: Option<Magic>,
    pub exp: i32,
    pub actions: Seq<EnemyActionView>,
}

impl View for EnemyAction {
    type V = EnemyActionView;

    open spec fn view(&self) -> EnemyActionView {
        EnemyActionView { chance: self.chance, msg: self.msg@, damage_factor: self.damage_factor }
    }
}

/// The views of a list of actions.
pub open spec fn action_views(actions: Seq<EnemyAction>) -> Seq<EnemyActionView> {
    actions.map_values(|a: EnemyAction| a@)
}

impl View for Enemy {
    type V = EnemyView;

    open spec fn view(&self) -> EnemyView {
        EnemyView {
            name: self.name@,
            sprite_path: self.sprite_path@,
            hp: self.hp,
            attack: self.attack,
            defense: self.defense,
            weakness: self.weakness,
            exp: self.exp,
            actions: action_views(self.actions@),
        }
    }
}
/// The enemy at position `i` of an encounter group.
pub open spec fn spec_enemy(group: EncounterGroup, i: int) -> EnemyView {
    match group {
        EncounterGroup::Wilderness1 => {
            if i == 0 {
                EnemyView {
                    name: "Rat"@,
                    sprite_path: "rat.png"@,
                    hp: 32,
                    attack: 4,
                    defense: 1,
                    weakness: None,
                    exp: 10,
                    actions: seq![
                        EnemyActionView { chance: 20, msg: "twitches its whiskers."@, damage_factor: None },
                    ],
                }
            } else if i == 1 {
                EnemyView {
                    name: "Dog"@,
                    sprite_path: "dog.png"@,
                    hp: 42,
                    attack: 6,
                    defense: 3,
                    weakness: None,
                    exp: 15,
                    actions: seq![
                        EnemyActionView { chance: 20, msg: "growls at Coric."@, damage_factor: None },
                    ],
                }
            } else if i == 2 {
                EnemyView {
                    name: "Horn Beast"@,
                    sprite_path: "horn-beast.png"@,
                    hp: 51,
                    attack: 9,
                    defense: 6,
                    weakness: None,
                    exp: 22,
                    actions: seq![
                        EnemyActionView { chance: 15, msg: "charges at Coric!"@, damage_factor: Some(13u32) },
                        EnemyActionView { chance: 15, msg: "charges at Coric!\nCoric steps aside!"@, damage_factor: None },
                    ],
                }
            } else {
                EnemyView {
                    name: "Cobra"@,
                    sprite_path: "cobra.png"@,
                    hp: 60,
                    attack: 12,
                    defense: 8,
                    weakness: None,
                    exp: 30,
                    actions: seq![
                        EnemyActionView { chance: 20, msg: "hisses at Coric."@, damage_factor: None },
                    ],
                }
            }
        },
        EncounterGroup::Wilderness2 => {
            if i == 0 {
                EnemyView {
                    name: "Dragonfly"@,
                    sprite_path: "dragonfly.png"@,
                    hp: 107,
                    attack: 24,
                    defense: 21,
                    weakness: Some(Magic::FireEdge),
                    exp: 96,
                    actions: seq![
                        EnemyActionView { chance: 10, msg: "swoops forward and bites!"@, damage_factor: Some(15u32) },
                        EnemyActionView { chance: 20, msg: "hovers to and fro."@, damage_factor: None },
                    ],
                }
            } else if i == 1 {
                EnemyView {
                    name: "Leech"@,
                    sprite_path: "leech.png"@,
                    hp: 116,
                    attack: 27,
                    defense: 23,
                    weakness: None,
                    exp: 115,
                    actions: seq![
                        EnemyActionView { chance: 20, msg: "bites Coric!"@, damage_factor: Some(13u32) },
                    ],
                }
            } else if i == 2 {
                EnemyView {
                    name: "Shambler"@,
                    sprite_path: "shambler.png"@,
                    hp: 126,
                    attack: 29,
                    defense: 26,
                    weakness: None,
                    exp: 139,
                    actions: seq![
                        EnemyActionView { chance: 15, msg: "spits a stinger at Coric!"@, damage_factor: Some(15u32) },
                    ],
                }
            } else {
                EnemyView {
                    name: "Fang Frog"@,
                    sprite_path: "fang-frog.png"@,
                    hp: 135,
                    attack: 32,
                    defense: 28,
                    weakness: None,
                    exp: 166,
                    actions: seq![
                        EnemyActionView { chance: 20, msg: "lunges and bites Coric!"@, damage_factor: Some(15u32) },
                        EnemyActionView { chance: 10, msg: "lunges at Coric!\nCoric narrowly dodges!"@, damage_factor: None },
                    ],
                }
            }
        },
        EncounterGroup::Wilderness3 => {
            if i == 0 {
                EnemyView {
                    name: "Griffon"@,
                    sprite_path: "griffon.png"@,
                    hp: 182,
                    attack: 44,
                    defense: 41,
                    weakness: Some(Magic::EarthEdge),
                    exp: 414,
                    actions: seq![
                        EnemyActionView { chance: 30, msg: "swoops with its claws bared!"@, damage_factor: Some(13u32) },
                    ],
                }
            } else if i == 1 {
                EnemyView {
                    name: "Orc"@,
                    sprite_path: "orc.png"@,
                    hp: 191,
                    attack: 47,
                    defense: 43,
                    weakness: None,
                    exp: 496,
                    actions: seq![
                        EnemyActionView { chance: 15, msg: "stabs Coric with its dagger!"@, damage_factor: Some(15u32) },
                        EnemyActionView { chance: 15, msg: "thrusts its dagger!\nCoric deflects the attack!"@, damage_factor: None },
                    ],
                }
            } else if i == 2 {
                EnemyView {
                    name: "Troll"@,
                    sprite_path: "troll.png"@,
                    hp: 200,
                    attack: 49,
                    defense: 46,
                    weakness: Some(Magic::WaterEdge),
                    exp: 596,
                    actions: seq![
                        EnemyActionView { chance: 20, msg: "swipes Coric with its claws!"@, damage_factor: Some(13u32) },
                        EnemyActionView { chance: 20, msg: "swings its claws wildly!\nCoric blocks some strikes."@, damage_factor: Some(5u32) },
                    ],
                }
            } else {
                EnemyView {
                    name: "War Tusk"@,
                    sprite_path: "war-tusk.png"@,
                    hp: 210,
                    attack: 51,
                    defense: 49,
                    weakness: None,
                    exp: 715,
                    actions: seq![
                        EnemyActionView { chance: 10, msg: "charges and gouges Coric!"@, damage_factor: Some(18u32) },
                        EnemyActionView { chance: 20, msg: "charges at Coric!\nCoric leaps aside!"@, damage_factor: None },
                    ],
                }
            }
        },
        EncounterGroup::EarthCastle => {
            if i == 0 {
                EnemyView {
                    name: "Bat"@,
                    sprite_path: "bat.png"@,
                    hp: 70,
                    attack: 14,
                    defense: 11,
                    weakness: None,
                    exp: 41,
                    actions: seq![
                        EnemyActionView { chance: 15, msg: "bites Coric!"@, damage_factor: Some(13u32) },
                        EnemyActionView { chance: 15, msg: "screeches and flutters about."@, damage_factor: None },
                    ],
                }
            } else if i == 1 {
                EnemyView {
                    name: "Scorpion"@,
                    sprite_path: "scorpion.png"@,
                    hp: 79,
                    attack: 16,
                    defense: 14,
                    weakness: None,
                    exp: 53,
                    actions: seq![
                        EnemyActionView { chance: 20, msg: "thrusts its stinger!"@, damage_factor: Some(14u32) },
                    ],
                }
            } else if i == 2 {
                EnemyView {
                    name: "Rogue"@,
                    sprite_path: "rogue.png"@,
                    hp: 88,
                    attack: 19,
                    defense: 16,
                    weakness: None,
                    exp: 67,
                    actions: seq![
                        EnemyActionView { chance: 20, msg: "throws a knife at Coric!"@, damage_factor: Some(13u32) },
                        EnemyActionView { chance: 10, msg: "tosses a knife!\nIt barely grazes Coric!"@, damage_factor: Some(3u32) },
                    ],
                }
            } else {
                EnemyView {
                    name: "Golem"@,
                    sprite_path: "golem.png"@,
                    hp: 98,
                    attack: 22,
                    defense: 19,
                    weakness: Some(Magic::FireEdge),
                    exp: 80,
                    actions: seq![
                        EnemyActionView { chance: 15, msg: "swings its stony fist!"@, damage_factor: Some(14u32) },
                    ],
                }
            }
        },
        EncounterGroup::WaterCastle => {
            if i == 0 {
                EnemyView {
                    name: "Jelly"@,
                    sprite_path: "jelly.png"@,
                    hp: 144,
                    attack: 34,
                    defense: 31,
                    weakness: None,
                    exp: 199,
                    actions: seq![
                        EnemyActionView { chance: 10, msg: "quivers in place."@, damage_factor: None },
                    ],
                }
            } else if i == 1 {
                EnemyView {
                    name: "Ghost"@,
                    sprite_path: "ghost.png"@,
                    hp: 154,
                    attack: 37,
                    defense: 33,
                    weakness: None,
                    exp: 239,
                    actions: seq![
                        EnemyActionView { chance: 20, msg: "extends its ethereal touch!"@, damage_factor: Some(13u32) },
                        EnemyActionView { chance: 20, msg: "emits a chilling breeze!"@, damage_factor: Some(7u32) },
                    ],
                }
            } else if i == 2 {
                EnemyView {
                    name: "Turtle"@,
                    sprite_path: "turtle.png"@,
                    hp: 163,
                    attack: 39,
                    defense: 66,
                    weakness: None,
                    exp: 287,
                    actions: seq![
                        EnemyActionView { chance: 15, msg: "extends its neck and bites!"@, damage_factor: Some(15u32) },
                        EnemyActionView { chance: 10, msg: "slowly advances on Coric."@, damage_factor: None },
                    ],
                }
            } else {
                EnemyView {
                    name: "Serpent"@,
                    sprite_path: "serpent.png"@,
                    hp: 172,
                    attack: 42,
                    defense: 39,
                    weakness: Some(Magic::EarthEdge),
                    exp: 345,
                    actions: seq![
                        EnemyActionView { chance: 15, msg: "fires a jet of water!"@, damage_factor: Some(17u32) },
                        EnemyActionView { chance: 15, msg: "fires a jet of water!\nCoric dodges some of it!"@, damage_factor: Some(5u32) },
                        EnemyActionView { chance: 15, msg: "roars in anger!"@, damage_factor: None },
                    ],
                }
            }
        },
        EncounterGroup::FireCastle => {
            if i == 0 {
                EnemyView {
                    name: "Basilisk"@,
                    sprite_path: "basilisk.png"@,
                    hp: 219,
                    attack: 54,
                    defense: 51,
                    weakness: None,
                    exp: 858,
                    actions: seq![
                        EnemyActionView { chance: 15, msg: "casts its burning gaze!"@, damage_factor: Some(14u32) },
                        EnemyActionView { chance: 15, msg: "casts its burning gaze!\nCoric narrowly averts his eyes!"@, damage_factor: None },
                    ],
                }
            } else if i == 1 {
                EnemyView {
                    name: "Warlock"@,
                    sprite_path: "warlock.png"@,
                    hp: 228,
                    attack: 57,
                    defense: 53,
                    weakness: None,
                    exp: 1029,
                    actions: seq![
                        EnemyActionView { chance: 20, msg: "conjures infernal bolts!"@, damage_factor: Some(15u32) },
                        EnemyActionView { chance: 10, msg: "mutters incoherent curses."@, damage_factor: None },
                    ],
                }
            } else if i == 2 {
                EnemyView {
                    name: "Minotaur"@,
                    sprite_path: "minotaur.png"@,
                    hp: 238,
                    attack: 59,
                    defense: 56,
                    weakness: None,
                    exp: 1235,
                    actions: seq![
                        EnemyActionView { chance: 15, msg: "swings its huge axe!"@, damage_factor: Some(15u32) },
                        EnemyActionView { chance: 15, msg: "swings its huge axe!\nCoric blocks the strike!"@, damage_factor: None },
                        EnemyActionView { chance: 10, msg: "grunts in anger."@, damage_factor: None },
                    ],
                }
            } else {
                EnemyView {
                    name: "Vampire"@,
                    sprite_path: "vampire.png"@,
                    hp: 247,
                    attack: 62,
                    defense: 59,
                    weakness: Some(Magic::WaterEdge),
                    exp: 1482,
                    actions: seq![
                        EnemyActionView { chance: 25, msg: "sinks its fangs into Coric!"@, damage_factor: Some(17u32) },
                        EnemyActionView { chance: 10, msg: "lunges at Coric!\nCoric barely dodges!"@, damage_factor: None },
                        EnemyActionView { chance: 10, msg: "bares its fangs."@, damage_factor: None },
                    ],
                }
            }
        },
    }
}

/// The spirit that guards the earth castle.
pub open spec fn spec_earth_spirit() -> EnemyView {
    EnemyView {
        name: "Earth"@,
        sprite_path: "earth.png"@,
        hp: 260,
        attack: 26,
        defense: 20,
        weakness: Some(Magic::FireEdge),
        exp: 250,
        actions: seq![
            EnemyActionView { chance: 25, msg: "hurls a boulder at Coric!"@, damage_factor: Some(15u32) },
            EnemyActionView { chance: 15, msg: "shakes the ground.\nCoric keeps his footing!"@, damage_factor: None },
        ],
    }
}

/// The spirit that guards the water castle.
pub open spec fn spec_water_spirit() -> EnemyView {
    EnemyView {
        name: "Water"@,
        sprite_path: "water.png"@,
        hp: 420,
        attack: 46,
        defense: 40,
        weakness: Some(Magic::EarthEdge),
        exp: 1200,
        actions: seq![
            EnemyActionView { chance: 25, msg: "unleashes a crashing wave!"@, damage_factor: Some(15u32) },
            EnemyActionView { chance: 15, msg: "summons a whirlpool!\nCoric swims free!"@, damage_factor: Some(5u32) },
        ],
    }
}

/// The spirit that guards the fire castle.
pub open spec fn spec_fire_spirit() -> EnemyView {
    EnemyView {
        name: "Fire"@,
        sprite_path: "fire.png"@,
        hp: 600,
        attack: 68,
        defense: 62,
        weakness: Some(Magic::WaterEdge),
        exp: 4000,
        actions: seq![
            EnemyActionView { chance: 25, msg: "engulfs Coric in flames!"@, damage_factor: Some(17u32) },
            EnemyActionView { chance: 15, msg: "spits embers at Coric!"@, damage_factor: Some(7u32) },
        ],
    }
}

fn make_enemy(
    name: &'static str,
    sprite_path: &'static str,
    hp: i32,
    attack: i32,
    defense: i32,
    weakness: Option<Magic>,
    exp: i32,
    actions: Vec<EnemyAction>,
) -> (e: Enemy)
    ensures
        e@ == (EnemyView {
            name: name@,
            sprite_path: sprite_path@,
            hp,
            attack,
            defense,
            weakness,
            exp,
            actions: action_views(actions@),
        }),
{
    Enemy { name, sprite_path, hp, attack, defense, weakness, exp, actions }
}

fn wilderness1_enemy(i: u32) -> (e: Enemy)
    requires
        i < GROUP_SIZE,
    ensures
        e@ == spec_enemy(EncounterGroup::Wilderness1, i as int),
{
    if i == 0 {
        let mut actions: Vec<EnemyAction> = Vec::new();
        actions.push(EnemyAction { chance: 20, msg: "twitches its whiskers.", damage_factor: None });
        assert(action_views(actions@) =~= seq![
            EnemyActionView { chance: 20, msg: "twitches its whiskers."@, damage_factor: None },
        ]);
        make_enemy("Rat", "rat.png", 32, 4, 1, None, 10, actions)
    } else if i == 1 {
        let mut actions: Vec<EnemyAction> = Vec::new();
        actions.push(EnemyAction { chance: 20, msg: "growls at Coric.", damage_factor: None });
        assert(action_views(actions@) =~= seq![
            EnemyActionView { chance: 20, msg: "growls at Coric."@, damage_factor: None },
        ]);
        make_enemy("Dog", "dog.png", 42, 6, 3, None, 15, actions)
    } else if i == 2 {
        let mut actions: Vec<EnemyAction> = Vec::new();
        actions.push(EnemyAction { chance: 15, msg: "charges at Coric!", damage_factor: Some(13u32) });
        actions.push(EnemyAction { chance: 15, msg: "charges at Coric!\nCoric steps aside!", damage_factor: None });
        assert(action_views(actions@) =~= seq![
            EnemyActionView { chance: 15, msg: "charges at Coric!"@, damage_factor: Some(13u32) },
            EnemyActionView { chance: 15, msg: "charges at Coric!\nCoric steps aside!"@, damage_factor: None },
        ]);
        make_enemy("Horn Beast", "horn-beast.png", 51, 9, 6, None, 22, actions)
    } else {
        let mut actions: Vec<EnemyAction> = Vec::new();
        actions.push(EnemyAction { chance: 20, msg: "hisses at Coric.", damage_factor: None });
        assert(action_views(actions@) =~= seq![
            EnemyActionView { chance: 20, msg: "hisses at Coric."@, damage_factor: None },
        ]);
        make_enemy("Cobra", "cobra.png", 60, 12, 8, None, 30, actions)
    }
}

fn wilderness2_enemy(i: u32) -> (e: Enemy)
    requires
        i < GROUP_SIZE,
    ensures
        e@ == spec_enemy(EncounterGroup::Wilderness2, i as int),
{
    if i == 0 {
        let mut actions: Vec<EnemyAction> = Vec::new();
        actions.push(EnemyAction { chance: 10, msg: "swoops forward and bites!", damage_factor: Some(15u32) });
        actions.push(EnemyAction { chance: 20, msg: "hovers to and fro.", damage_factor: None });
        assert(action_views(actions@) =~= seq![
            EnemyActionView { chance: 10, msg: "swoops forward and bites!"@, damage_factor: Some(15u32) },
            EnemyActionView { chance: 20, msg: "hovers to and fro."@, damage_factor: None },
        ]);
        make_enemy("Dragonfly", "dragonfly.png", 107, 24, 21, Some(Magic::FireEdge), 96, actions)
    } else if i == 1 {
        let mut actions: Vec<EnemyAction> = Vec::new();
        actions.push(EnemyAction { chance: 20, msg: "bites Coric!", damage_factor: Some(13u32) });
        assert(action_views(actions@) =~= seq![
            EnemyActionView { chance: 20, msg: "bites Coric!"@, damage_factor: Some(13u32) },
        ]);
        make_enemy("Leech", "leech.png", 116, 27, 23, None, 115, actions)
    } else if i == 2 {
        let mut actions: Vec<EnemyAction> = Vec::new();
        actions.push(EnemyAction { chance: 15, msg: "spits a stinger at Coric!", damage_factor: Some(15u32) });
        assert(action_views(actions@) =~= seq![
            EnemyActionView { chance: 15, msg: "spits a stinger at Coric!"@, damage_factor: Some(15u32) },
        ]);
        make_enemy("Shambler", "shambler.png", 126, 29, 26, None, 139, actions)
    } else {
        let mut actions: Vec<EnemyAction> = Vec::new();
        actions.push(EnemyAction { chance: 20, msg: "lunges and bites Coric!", damage_factor: Some(15u32) });
        actions.push(EnemyAction { chance: 10, msg: "lunges at Coric!\nCoric narrowly dodges!", damage_factor: None });
        assert(action_views(actions@) =~= seq![
            EnemyActionView { chance: 20, msg: "lunges and bites Coric!"@, damage_factor: Some(15u32) },
            EnemyActionView { chance: 10, msg: "lunges at Coric!\nCoric narrowly dodges!"@, damage_factor: None },
        ]);
        make_enemy("Fang Frog", "fang-frog.png", 135, 32, 28, None, 166, actions)
    }
}

fn wilderness3_enemy(i: u32) -> (e: Enemy)
    requires
        i < GROUP_SIZE,
    ensures
        e@ == spec_enemy(EncounterGroup::Wilderness3, i as int),
{
    if i == 0 {
        let mut actions: Vec<EnemyAction> = Vec::new();
        actions.push(EnemyAction { chance: 30, msg: "swoops with its claws bared!", damage_factor: Some(13u32) });
        assert(action_views(actions@) =~= seq![
            EnemyActionView { chance: 30, msg: "swoops with its claws bared!"@, damage_factor: Some(13u32) },
        ]);
        make_enemy("Griffon", "griffon.png", 182, 44, 41, Some(Magic::EarthEdge), 414, actions)
    } else if i == 1 {
        let mut actions: Vec<EnemyAction> = Vec::new();
        actions.push(EnemyAction { chance: 15, msg: "stabs Coric with its dagger!", damage_factor: Some(15u32) });
        actions.push(EnemyAction { chance: 15, msg: "thrusts its dagger!\nCoric deflects the attack!", damage_factor: None });
        assert(action_views(actions@) =~= seq![
            EnemyActionView { chance: 15, msg: "stabs Coric with its dagger!"@, damage_factor: Some(15u32) },
            EnemyActionView { chance: 15, msg: "thrusts its dagger!\nCoric deflects the attack!"@, damage_factor: None },
        ]);
        make_enemy("Orc", "orc.png", 191, 47, 43, None, 496, actions)
    } else if i == 2 {
        let mut actions: Vec<EnemyAction> = Vec::new();
        actions.push(EnemyAction { chance: 20, msg: "swipes Coric with its claws!", damage_factor: Some(13u32) });
        actions.push(EnemyAction { chance: 20, msg: "swings its claws wildly!\nCoric blocks some strikes.", damage_factor: Some(5u32) });
        assert(action_views(actions@) =~= seq![
            EnemyActionView { chance: 20, msg: "swipes Coric with its claws!"@, damage_factor: Some(13u32) },
            EnemyActionView { chance: 20, msg: "swings its claws wildly!\nCoric blocks some strikes."@, damage_factor: Some(5u32) },
        ]);
        make_enemy("Troll", "troll.png", 200, 49, 46, Some(Magic::WaterEdge), 596, actions)
    } else {
        let mut actions: Vec<EnemyAction> = Vec::new();
        actions.push(EnemyAction { chance: 10, msg: "charges and gouges Coric!", damage_factor: Some(18u32) });
        actions.push(EnemyAction { chance: 20, msg: "charges at Coric!\nCoric leaps aside!", damage_factor: None });
        assert(action_views(actions@) =~= seq![
            EnemyActionView { chance: 10, msg: "charges and gouges Coric!"@, damage_factor: Some(18u32) },
            EnemyActionView { chance: 20, msg: "charges at Coric!\nCoric leaps aside!"@, damage_factor: None },
        ]);
        make_enemy("War Tusk", "war-tusk.png", 210, 51, 49, None, 715, actions)
    }
}

fn earth_castle_enemy(i: u32) -> (e: Enemy)
    requires
        i < GROUP_SIZE,
    ensures
        e@ == spec_enemy(EncounterGroup::EarthCastle, i as int),
{
    if i == 0 {
        let mut actions: Vec<EnemyAction> = Vec::new();
        actions.push(EnemyAction { chance: 15, msg: "bites Coric!", damage_factor: Some(13u32) });
        actions.push(EnemyAction { chance: 15, msg: "screeches and flutters about.", damage_factor: None });
        assert(action_views(actions@) =~= seq![
            EnemyActionView { chance: 15, msg: "bites Coric!"@, damage_factor: Some(13u32) },
            EnemyActionView { chance: 15, msg: "screeches and flutters about."@, damage_factor: None },
        ]);
        make_enemy("Bat", "bat.png", 70, 14, 11, None, 41, actions)
    } else if i == 1 {
        let mut actions: Vec<EnemyAction> = Vec::new();
        actions.push(EnemyAction { chance: 20, msg: "thrusts its stinger!", damage_factor: Some(14u32) });
        assert(action_views(actions@) =~= seq![
            EnemyActionView { chance: 20, msg: "thrusts its stinger!"@, damage_factor: Some(14u32) },
        ]);
        make_enemy("Scorpion", "scorpion.png", 79, 16, 14, None, 53, actions)
    } else if i == 2 {
        let mut actions: Vec<EnemyAction> = Vec::new();
        actions.push(EnemyAction { chance: 20, msg: "throws a knife at Coric!", damage_factor: Some(13u32) });
        actions.push(EnemyAction { chance: 10, msg: "tosses a knife!\nIt barely grazes Coric!", damage_factor: Some(3u32) });
        assert(action_views(actions@) =~= seq![
            EnemyActionView { chance: 20, msg: "throws a knife at Coric!"@, damage_factor: Some(13u32) },
            EnemyActionView { chance: 10, msg: "tosses a knife!\nIt barely grazes Coric!"@, damage_factor: Some(3u32) },
        ]);
        make_enemy("Rogue", "rogue.png", 88, 19, 16, None, 67, actions)
    } else {
        let mut actions: Vec<EnemyAction> = Vec::new();
        actions.push(EnemyAction { chance: 15, msg: "swings its stony fist!", damage_factor: Some(14u32) });
        assert(action_views(actions@) =~= seq![
            EnemyActionView { chance: 15, msg: "swings its stony fist!"@, damage_factor: Some(14u32) },
        ]);
        make_enemy("Golem", "golem.png", 98, 22, 19, Some(Magic::FireEdge), 80, actions)
    }
}

fn water_castle_enemy(i: u32) -> (e: Enemy)
    requires
        i < GROUP_SIZE,
    ensures
        e@ == spec_enemy(EncounterGroup::WaterCastle, i as int),
{
    if i == 0 {
        let mut actions: Vec<EnemyAction> = Vec::new();
        actions.push(EnemyAction { chance: 10, msg: "quivers in place.", damage_factor: None });
        assert(action_views(actions@) =~= seq![
            EnemyActionView { chance: 10, msg: "quivers in place."@, damage_factor: None },
        ]);
        make_enemy("Jelly", "jelly.png", 144, 34, 31, None, 199, actions)
    } else if i == 1 {
        let mut actions: Vec<EnemyAction> = Vec::new();
        actions.push(EnemyAction { chance: 20, msg: "extends its ethereal touch!", damage_factor: Some(13u32) });
        actions.push(EnemyAction { chance: 20, msg: "emits a chilling breeze!", damage_factor: Some(7u32) });
        assert(action_views(actions@) =~= seq![
            EnemyActionView { chance: 20, msg: "extends its ethereal touch!"@, damage_factor: Some(13u32) },
            EnemyActionView { chance: 20, msg: "emits a chilling breeze!"@, damage_factor: Some(7u32) },
        ]);
        make_enemy("Ghost", "ghost.png", 154, 37, 33, None, 239, actions)
    } else if i == 2 {
        let mut actions: Vec<EnemyAction> = Vec::new();
        actions.push(EnemyAction { chance: 15, msg: "extends its neck and bites!", damage_factor: Some(15u32) });
        actions.push(EnemyAction { chance: 10, msg: "slowly advances on Coric.", damage_factor: None });
        assert(action_views(actions@) =~= seq![
            EnemyActionView { chance: 15, msg: "extends its neck and bites!"@, damage_factor: Some(15u32) },
            EnemyActionView { chance: 10, msg: "slowly advances on Coric."@, damage_factor: None },
        ]);
        make_enemy("Turtle", "turtle.png", 163, 39, 66, None, 287, actions)
    } else {
        let mut actions: Vec<EnemyAction> = Vec::new();
        actions.push(EnemyAction { chance: 15, msg: "fires a jet of water!", damage_factor: Some(17u32) });
        actions.push(EnemyAction { chance: 15, msg: "fires a jet of water!\nCoric dodges some of it!", damage_factor: Some(5u32) });
        actions.push(EnemyAction { chance: 15, msg: "roars in anger!", damage_factor: None });
        assert(action_views(actions@) =~= seq![
            EnemyActionView { chance: 15, msg: "fires a jet of water!"@, damage_factor: Some(17u32) },
            EnemyActionView { chance: 15, msg: "fires a jet of water!\nCoric dodges some of it!"@, damage_factor: Some(5u32) },
            EnemyActionView { chance: 15, msg: "roars in anger!"@, damage_factor: None },
        ]);
        make_enemy("Serpent", "serpent.png", 172, 42, 39, Some(Magic::EarthEdge), 345, actions)
    }
}

fn fire_castle_enemy(i: u32) -> (e: Enemy)
    requires
        i < GROUP_SIZE,
    ensures
        e@ == spec_enemy(EncounterGroup::FireCastle, i as int),
{
    if i == 0 {
        let mut actions: Vec<EnemyAction> = Vec::new();
        actions.push(EnemyAction { chance: 15, msg: "casts its burning gaze!", damage_factor: Some(14u32) });
        actions.push(EnemyAction { chance: 15, msg: "casts its burning gaze!\nCoric narrowly averts his eyes!", damage_factor: None });
        assert(action_views(actions@) =~= seq![
            EnemyActionView { chance: 15, msg: "casts its burning gaze!"@, damage_factor: Some(14u32) },
            EnemyActionView { chance: 15, msg: "casts its burning gaze!\nCoric narrowly averts his eyes!"@, damage_factor: None },
        ]);
        make_enemy("Basilisk", "basilisk.png", 219, 54, 51, None, 858, actions)
    } else if i == 1 {
        let mut actions: Vec<EnemyAction> = Vec::new();
        actions.push(EnemyAction { chance: 20, msg: "conjures infernal bolts!", damage_factor: Some(15u32) });
        actions.push(EnemyAction { chance: 10, msg: "mutters incoherent curses.", damage_factor: None });
        assert(action_views(actions@) =~= seq![
            EnemyActionView { chance: 20, msg: "conjures infernal bolts!"@, damage_factor: Some(15u32) },
            EnemyActionView { chance: 10, msg: "mutters incoherent curses."@, damage_factor: None },
        ]);
        make_enemy("Warlock", "warlock.png", 228, 57, 53, None, 1029, actions)
    } else if i == 2 {
        let mut actions: Vec<EnemyAction> = Vec::new();
        actions.push(EnemyAction { chance: 15, msg: "swings its huge axe!", damage_factor: Some(15u32) });
        actions.push(EnemyAction { chance: 15, msg: "swings its huge axe!\nCoric blocks the strike!", damage_factor: None });
        actions.push(EnemyAction { chance: 10, msg: "grunts in anger.", damage_factor: None });
        assert(action_views(actions@) =~= seq![
            EnemyActionView { chance: 15, msg: "swings its huge axe!"@, damage_factor: Some(15u32) },
            EnemyActionView { chance: 15, msg: "swings its huge axe!\nCoric blocks the strike!"@, damage_factor: None },
            EnemyActionView { chance: 10, msg: "grunts in anger."@, damage_factor: None },
        ]);
        make_enemy("Minotaur", "minotaur.png", 238, 59, 56, None, 1235, actions)
    } else {
        let mut actions: Vec<EnemyAction> = Vec::new();
        actions.push(EnemyAction { chance: 25, msg: "sinks its fangs into Coric!", damage_factor: Some(17u32) });
        actions.push(EnemyAction { chance: 10, msg: "lunges at Coric!\nCoric barely dodges!", damage_factor: None });
        actions.push(EnemyAction { chance: 10, msg: "bares its fangs.", damage_factor: None });
        assert(action_views(actions@) =~= seq![
            EnemyActionView { chance: 25, msg: "sinks its fangs into Coric!"@, damage_factor: Some(17u32) },
            EnemyActionView { chance: 10, msg: "lunges at Coric!\nCoric barely dodges!"@, damage_factor: None },
            EnemyActionView { chance: 10, msg: "bares its fangs."@, damage_factor: None },
        ]);
        make_enemy("Vampire", "vampire.png", 247, 62, 59, Some(Magic::WaterEdge), 1482, actions)
    }
}

impl Enemy {
    pub fn earth_spirit() -> (e: Enemy)
        ensures
            e@ == spec_earth_spirit(),
    {
        let mut actions: Vec<EnemyAction> = Vec::new();
        actions.push(EnemyAction { chance: 25, msg: "hurls a boulder at Coric!", damage_factor: Some(15u32) });
        actions.push(EnemyAction { chance: 15, msg: "shakes the ground.\nCoric keeps his footing!", damage_factor: None });
        assert(action_views(actions@) =~= seq![
            EnemyActionView { chance: 25, msg: "hurls a boulder at Coric!"@, damage_factor: Some(15u32) },
            EnemyActionView { chance: 15, msg: "shakes the ground.\nCoric keeps his footing!"@, damage_factor: None },
        ]);
        make_enemy("Earth", "earth.png", 260, 26, 20, Some(Magic::FireEdge), 250, actions)
    }

    pub fn water_spirit() -> (e: Enemy)
        ensures
            e@ == spec_water_spirit(),
    {
        let mut actions: Vec<EnemyAction> = Vec::new();
        actions.push(EnemyAction { chance: 25, msg: "unleashes a crashing wave!", damage_factor: Some(15u32) });
        actions.push(EnemyAction { chance: 15, msg: "summons a whirlpool!\nCoric swims free!", damage_factor: Some(5u32) });
        assert(action_views(actions@) =~= seq![
            EnemyActionView { chance: 25, msg: "unleashes a crashing wave!"@, damage_factor: Some(15u32) },
            EnemyActionView { chance: 15, msg: "summons a whirlpool!\nCoric swims free!"@, damage_factor: Some(5u32) },
        ]);
        make_enemy("Water", "water.png", 420, 46, 40, Some(Magic::EarthEdge), 1200, actions)
    }

    pub fn fire_spirit() -> (e: Enemy)
        ensures
            e@ == spec_fire_spirit(),
    {
        let mut actions: Vec<EnemyAction> = Vec::new();
        actions.push(EnemyAction { chance: 25, msg: "engulfs Coric in flames!", damage_factor: Some(17u32) });
        actions.push(EnemyAction { chance: 15, msg: "spits embers at Coric!", damage_factor: Some(7u32) });
        assert(action_views(actions@) =~= seq![
            EnemyActionView { chance: 25, msg: "engulfs Coric in flames!"@, damage_factor: Some(17u32) },
            EnemyActionView { chance: 15, msg: "spits embers at Coric!"@, damage_factor: Some(7u32) },
        ]);
        make_enemy("Fire", "fire.png", 600, 68, 62, Some(Magic::WaterEdge), 4000, actions)
    }

    /// A copy of this enemy.
    pub fn clone(&self) -> (e: Enemy)
        ensures
            e@ == self@,
    {
        let mut actions: Vec<EnemyAction> = Vec::new();
        let mut i: usize = 0;
        while i < self.actions.len()
            invariant
                i <= self.actions.len(),
                actions@.len() == i,
                forall|j: int| 0 <= j < i ==> (#[trigger] actions@[j])@ == self.actions@[j]@,
            decreases self.actions.len() - i,
        {
            let a = &self.actions[i];
            actions.push(EnemyAction { chance: a.chance, msg: a.msg, damage_factor: a.damage_factor });
            i = i + 1;
        }
        assert(action_views(actions@) =~= action_views(self.actions@));
        make_enemy(
            self.name,
            self.sprite_path,
            self.hp,
            self.attack,
            self.defense,
            self.weakness,
            self.exp,
            actions,
        )
    }
}

impl EncounterGroup {
    /// Position of the group among the groups, and of its step counter.
    pub open spec fn spec_index(self) -> int {
        match self {
            EncounterGroup::Wilderness1 => 0,
            EncounterGroup::Wilderness2 => 1,
            EncounterGroup::Wilderness3 => 2,
            EncounterGroup::EarthCastle => 3,
            EncounterGroup::WaterCastle => 4,
            EncounterGroup::FireCastle => 5,
        }
    }

    pub fn index(self) -> (i: usize)
        ensures
            i == self.spec_index(),
            i < NUM_GROUPS,
    {
        match self {
            EncounterGroup::Wilderness1 => 0,
            EncounterGroup::Wilderness2 => 1,
            EncounterGroup::Wilderness3 => 2,
            EncounterGroup::EarthCastle => 3,
            EncounterGroup::WaterCastle => 4,
            EncounterGroup::FireCastle => 5,
        }
    }

    /// The group with the given name in level data.
    pub open spec fn named(s: Seq<char>) -> Option<EncounterGroup> {
        if s == "Wilderness1"@ {
            Some(EncounterGroup::Wilderness1)
        } else if s == "Wilderness2"@ {
            Some(EncounterGroup::Wilderness2)
        } else if s == "Wilderness3"@ {
            Some(EncounterGroup::Wilderness3)
        } else if s == "EarthCastle"@ {
            Some(EncounterGroup::EarthCastle)
        } else if s == "WaterCastle"@ {
            Some(EncounterGroup::WaterCastle)
        } else if s == "FireCastle"@ {
            Some(EncounterGroup::FireCastle)
        } else {
            None
        }
    }

    /// The group that level data names, `None` for a name that is none.
    pub fn from(s: &str) -> (g: Option<EncounterGroup>)
        ensures
            g == EncounterGroup::named(s@),
    {
        if str_eq(s, "Wilderness1") {
            Some(EncounterGroup::Wilderness1)
        } else if str_eq(s, "Wilderness2") {
            Some(EncounterGroup::Wilderness2)
        } else if str_eq(s, "Wilderness3") {
            Some(EncounterGroup::Wilderness3)
        } else if str_eq(s, "EarthCastle") {
            Some(EncounterGroup::EarthCastle)
        } else if str_eq(s, "WaterCastle") {
            Some(EncounterGroup::WaterCastle)
        } else if str_eq(s, "FireCastle") {
            Some(EncounterGroup::FireCastle)
        } else {
            None
        }
    }

    /// The enemy at position `i` of the group.
    pub fn enemy(self, i: u32) -> (e: Enemy)
        requires
            i < GROUP_SIZE,
        ensures
            e@ == spec_enemy(self, i as int),
    {
        match self {
            EncounterGroup::Wilderness1 => wilderness1_enemy(i),
            EncounterGroup::Wilderness2 => wilderness2_enemy(i),
            EncounterGroup::Wilderness3 => wilderness3_enemy(i),
            EncounterGroup::EarthCastle => earth_castle_enemy(i),
            EncounterGroup::WaterCastle => water_castle_enemy(i),
            EncounterGroup::FireCastle => fire_castle_enemy(i),
        }
    }

    /// An enemy of the group, each as likely as the others.
    pub fn random_enemy(self, rng: &mut Rng) -> (e: Enemy)
        ensures
            e@ == spec_enemy(self, sample(old(rng)@, GROUP_SIZE, MAX_DRAWS as nat).0 as int),
            final(rng)@ == sample(old(rng)@, GROUP_SIZE, MAX_DRAWS as nat).1,
    {
        let i = rng.random(GROUP_SIZE);
        self.enemy(i)
    }
}

} // verus!
