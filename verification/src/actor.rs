//! The figures of a level: the player, the people of the town, chests,
//! levers and spirits, and how they move from tile to tile.
use vstd::prelude::*;
use crate::aseprite::SpriteSheet;
use crate::async_utils::Poll;
use crate::direction::Direction;
use crate::draw::{emit, views, DrawCommand, DrawCommandView, SCREEN_HEIGHT, SCREEN_WIDTH};
use crate::levels::TILE_SIZE;
use crate::numeric::{add_clamped, clamp_i32, signum, signum_i32, sub_clamped};
use crate::sprite::{usable_sheet, Playback, Sprite};
use crate::strings::str_eq;

verus! {

#[derive(Clone, Copy, Debug, PartialEq, Eq, Hash, Structural)]
pub enum ActorType {
    Player,
    Bed,
    Chest,
    Lever,
    Ducille,
    Jace,
    Julis,
    Matero,
    Earth,
    Water,
    Fire,
}

#[derive(Clone, Copy, Debug, PartialEq, Eq, Structural)]
pub enum ChestType {
    FireEdge,
    EarthEdge,
    WaterEdge,
    LongSword,
    ChainVest,
    DuelistSword,
    SteelArmor,
    ValorBlade,
    MythicPlate,
}

pub struct Actor {
    pub identifier: ActorType,
    pub grid_x: i32,
    pub grid_y: i32,
    pub offset_x: i32,
    pub offset_y: i32,
    pub face_dir: Direction,
    pub visible: bool,
    pub sprite: Sprite,
    pub chest_type: Option<ChestType>,
}

/// Why an actor of level data cannot be made.
#[derive(Clone, Copy, Debug, PartialEq, Eq, Structural)]
pub enum ActorError {
    /// The kind of actor is none that the game knows.
    UnknownActorType,
    /// No usable sprite sheet goes by the name of the actor's image.
    MissingSprite,
    /// A chest without contents, or with contents that the game does not know.
    BadChestType,
}

impl ActorType {
    /// The kind of actor with the given name in level data.
    pub open spec fn named(s: Seq<char>) -> Option<ActorType> {
        if s == "Player"@ {
            Some(ActorType::Player)
        } else if s == "Bed"@ {
            Some(ActorType::Bed)
        } else if s == "Chest"@ {
            Some(ActorType::Chest)
        } else if s == "Lever"@ {
            Some(ActorType::Lever)
        } else if s == "Ducille"@ {
            Some(ActorType::Ducille)
        } else if s == "Jace"@ {
            Some(ActorType::Jace)
        } else if s == "Julis"@ {
            Some(ActorType::Julis)
        } else if s == "Matero"@ {
            Some(ActorType::Matero)
        } else if s == "Earth"@ {
            Some(ActorType::Earth)
        } else if s == "Water"@ {
            Some(ActorType::Water)
        } else if s == "Fire"@ {
            Some(ActorType::Fire)
        } else {
            None
        }
    }

    /// The kind of actor that level data names, `None` for a name that is none.
    pub fn from(s: &str) -> (t: Option<ActorType>)
        ensures
            t == ActorType::named(s@),
    {
        if str_eq(s, "Player") {
            Some(ActorType::Player)
        } else if str_eq(s, "Bed") {
            Some(ActorType::Bed)
        } else if str_eq(s, "Chest") {
            Some(ActorType::Chest)
        } else if str_eq(s, "Lever") {
            Some(ActorType::Lever)
        } else if str_eq(s, "Ducille") {
            Some(ActorType::Ducille)
        } else if str_eq(s, "Jace") {
            Some(ActorType::Jace)
        } else if str_eq(s, "Julis") {
            Some(ActorType::Julis)
        } else if str_eq(s, "Matero") {
            Some(ActorType::Matero)
        } else if str_eq(s, "Earth") {
            Some(ActorType::Earth)
        } else if str_eq(s, "Water") {
            Some(ActorType::Water)
        } else if str_eq(s, "Fire") {
            Some(ActorType::Fire)
        } else {
            None
        }
    }
}

impl ChestType {
    /// The contents of a chest with the given name in level data.
    pub open spec fn named(s: Seq<char>) -> Option<ChestType> {
        if s == "FireEdge"@ {
            Some(ChestType::FireEdge)
        } else if s == "EarthEdge"@ {
            Some(ChestType::EarthEdge)
        } else if s == "WaterEdge"@ {
            Some(ChestType::WaterEdge)
        } else if s == "LongSword"@ {
            Some(ChestType::LongSword)
        } else if s == "ChainVest"@ {
            Some(ChestType::ChainVest)
        } else if s == "DuelistSword"@ {
            Some(ChestType::DuelistSword)
        } else if s == "SteelArmor"@ {
            Some(ChestType::SteelArmor)
        } else if s == "ValorBlade"@ {
            Some(ChestType::ValorBlade)
        } else if s == "MythicPlate"@ {
            Some(ChestType::MythicPlate)
        } else {
            None
        }
    }

    /// The contents that level data names, `None` for a name that is none.
    pub fn from(s: &str) -> (t: Option<ChestType>)
        ensures
            t == ChestType::named(s@),
    {
        if str_eq(s, "FireEdge") {
            Some(ChestType::FireEdge)
        } else if str_eq(s, "EarthEdge") {
            Some(ChestType::EarthEdge)
        } else if str_eq(s, "WaterEdge") {
            Some(ChestType::WaterEdge)
        } else if str_eq(s, "LongSword") {
            Some(ChestType::LongSword)
        } else if str_eq(s, "ChainVest") {
            Some(ChestType::ChainVest)
        } else if str_eq(s, "DuelistSword") {
            Some(ChestType::DuelistSword)
        } else if str_eq(s, "SteelArmor") {
            Some(ChestType::SteelArmor)
        } else if str_eq(s, "ValorBlade") {
            Some(ChestType::ValorBlade)
        } else if str_eq(s, "MythicPlate") {
            Some(ChestType::MythicPlate)
        } else {
            None
        }
    }
}

impl Actor {
    pub open spec fn sprite(&self) -> Sprite {
        self.sprite
    }

    pub open spec fn wf(&self) -> bool {
        self.sprite().wf()
    }

    /// Everything but the sprite is the same, and the sprite is of the same sheet.
    pub open spec fn same_but_playback(&self, other: &Actor) -> bool {
        &&& self.identifier == other.identifier
        &&& self.grid_x == other.grid_x
        &&& self.grid_y == other.grid_y
        &&& self.offset_x == other.offset_x
        &&& self.offset_y == other.offset_y
        &&& self.face_dir == other.face_dir
        &&& self.visible == other.visible
        &&& self.chest_type == other.chest_type
        &&& self.sprite().same_sheet(&other.sprite())
    }

    /// An actor on a tile of the grid, facing south, with a sprite made of
    /// `sheet`; `None` for a sheet that cannot be used.
    pub fn new(sheet: &SpriteSheet, identifier: ActorType, grid_x: i32, grid_y: i32) -> (r: Option<
        Actor,
    >)
        ensures
            r is Some == usable_sheet(sheet),
            r matches Some(a) ==> {
                &&& a.wf()
                &&& a.identifier == identifier
                &&& a.grid_x == grid_x
                &&& a.grid_y == grid_y
                &&& a.offset_x == 0
                &&& a.offset_y == 0
                &&& a.face_dir == Direction::South
                &&& a.visible
                &&& a.chest_type is None
                &&& a.sprite().made_of(sheet)
                &&& a.sprite().image() == sheet.meta.image@
                &&& a.sprite().playback() == (Playback { tag: 0, frame: 0, t: 0, forward: true })
            },
    {
        match Sprite::new(sheet) {
            Some(sprite) => Some(
                Actor {
                    identifier,
                    grid_x,
                    grid_y,
                    offset_x: 0,
                    offset_y: 0,
                    face_dir: Direction::South,
                    visible: true,
                    sprite,
                    chest_type: None,
                },
            ),
            None => None,
        }
    }

    /// The actor that an entity of level data stands for. The entity names
    /// its kind, and a chest names its contents.
    pub fn new_by_json(
        sheet: Option<&SpriteSheet>,
        identifier: &str,
        grid_x: i32,
        grid_y: i32,
        chest_type: Option<&str>,
    ) -> (r: Result<Actor, ActorError>)
        ensures
            ActorType::named(identifier@) is None ==> r == Err::<Actor, ActorError>(
                ActorError::UnknownActorType,
            ),
            ActorType::named(identifier@) is Some && !(sheet matches Some(s) && usable_sheet(s))
                ==> r == Err::<Actor, ActorError>(ActorError::MissingSprite),
            ActorType::named(identifier@) == Some(ActorType::Chest) && (sheet matches Some(s)
                && usable_sheet(s)) && !(chest_type matches Some(c) && ChestType::named(c@) is Some)
                ==> r == Err::<Actor, ActorError>(ActorError::BadChestType),
            r matches Ok(a) ==> {
                &&& a.wf()
                &&& Some(a.identifier) == ActorType::named(identifier@)
                &&& a.grid_x == grid_x
                &&& a.grid_y == grid_y
                &&& a.offset_x == 0
                &&& a.offset_y == 0
                &&& a.face_dir == Direction::South
                &&& a.visible
                &&& a.identifier == ActorType::Chest ==> (chest_type matches Some(c) && a.chest_type
                    == ChestType::named(c@))
                &&& a.identifier != ActorType::Chest ==> a.chest_type is None
                &&& sheet matches Some(s) && a.sprite().made_of(s)
                &&& a.sprite().playback() == (Playback { tag: 0, frame: 0, t: 0, forward: true })
            },
            r is Ok == {
                &&& ActorType::named(identifier@) is Some
                &&& (sheet matches Some(s) && usable_sheet(s))
                &&& ActorType::named(identifier@) == Some(ActorType::Chest) ==> (
                chest_type matches Some(c) && ChestType::named(c@) is Some)
            },
    {
        let kind = match ActorType::from(identifier) {
            Some(kind) => kind,
            None => {
                return Err(ActorError::UnknownActorType);
            },
        };
        let sheet = match sheet {
            Some(sheet) => sheet,
            None => {
                return Err(ActorError::MissingSprite);
            },
        };
        let mut actor = match Actor::new(sheet, kind, grid_x, grid_y) {
            Some(actor) => actor,
            None => {
                return Err(ActorError::MissingSprite);
            },
        };
        if kind == ActorType::Chest {
            let contents = match chest_type {
                Some(name) => ChestType::from(name),
                None => None,
            };
            match contents {
                Some(contents) => {
                    actor.chest_type = Some(contents);
                },
                None => {
                    return Err(ActorError::BadChestType);
                },
            }
        }
        Ok(actor)
    }

    pub fn animate(&mut self)
        requires
            old(self).wf(),
        ensures
            final(self).wf(),
            final(self).same_but_playback(old(self)),
            final(self).sprite().playback() == old(self).sprite().after_tick(),
    {
        self.sprite.animate();
    }

    /// Where the actor is drawn on a screen whose center shows the point
    /// (`camera_x`, `camera_y`) of the level.
    pub open spec fn screen_position(&self, camera_x: i32, camera_y: i32) -> (i64, i64) {
        (
            (TILE_SIZE * self.grid_x + self.offset_x + SCREEN_WIDTH / 2 - camera_x) as i64,
            (TILE_SIZE * self.grid_y + self.offset_y + SCREEN_HEIGHT / 2 - camera_y) as i64,
        )
    }

    /// What [`Actor::draw`] appends: the current frame of the sprite, or
    /// nothing for an actor out of sight.
    pub open spec fn drawn(&self, camera_x: i32, camera_y: i32) -> Seq<DrawCommandView> {
        if self.visible {
            seq![
                DrawCommandView::Sprite {
                    image: self.sprite().image(),
                    src: self.sprite().frames()[self.sprite().playback().frame].rect,
                    x: self.screen_position(camera_x, camera_y).0,
                    y: self.screen_position(camera_x, camera_y).1,
                },
            ]
        } else {
            Seq::empty()
        }
    }

    pub fn draw(&self, out: &mut Vec<DrawCommand>, camera_x: i32, camera_y: i32)
        requires
            self.wf(),
        ensures
            views(final(out)@) == views(old(out)@) + self.drawn(camera_x, camera_y),
    {
        if self.visible {
            let x: i64 = 16 * (self.grid_x as i64) + self.offset_x as i64 + (SCREEN_WIDTH / 2) as i64
                - camera_x as i64;
            let y: i64 = 16 * (self.grid_y as i64) + self.offset_y as i64 + (SCREEN_HEIGHT / 2) as i64
                - camera_y as i64;
            emit(
                out,
                DrawCommand::Sprite {
                    image: self.sprite.image_name().to_owned(),
                    src: self.sprite.frame_rect(),
                    x,
                    y,
                },
            );
            assert(views(old(out)@) + self.drawn(camera_x, camera_y) =~= views(old(out)@).push(
                self.drawn(camera_x, camera_y)[0],
            ));
        } else {
            assert(views(old(out)@) + self.drawn(camera_x, camera_y) =~= views(old(out)@));
        }
    }

    pub fn start_animation(&mut self, tag: &str) -> (started: bool)
        requires
            old(self).wf(),
        ensures
            final(self).wf(),
            final(self).same_but_playback(old(self)),
            started == old(self).sprite().can_start(tag@),
            started ==> final(self).sprite().playback() == old(self).sprite().started(tag@),
            !started ==> final(self).sprite().playback() == old(self).sprite().playback(),
            final(self).sprite().playback() == old(self).sprite().start_at(
                old(self).sprite().playback(),
                tag@,
            ),
    {
        self.sprite.start_animation(tag)
    }

    pub fn start_walk_animation(&mut self, dir: Direction) -> (started: bool)
        requires
            old(self).wf(),
        ensures
            final(self).wf(),
            final(self).same_but_playback(old(self)),
            started == old(self).sprite().can_start(crate::sprite::walk_tag(dir)),
            started ==> final(self).sprite().playback() == old(self).sprite().started(
                crate::sprite::walk_tag(dir),
            ),
            !started ==> final(self).sprite().playback() == old(self).sprite().playback(),
            final(self).sprite().playback() == old(self).sprite().start_at(
                old(self).sprite().playback(),
                crate::sprite::walk_tag(dir),
            ),
    {
        self.sprite.start_walk_animation(dir)
    }

    pub fn stop_walk_animation(&mut self) -> (ok: bool)
        requires
            old(self).wf(),
        ensures
            final(self).wf(),
            final(self).same_but_playback(old(self)),
            final(self).sprite().playback() == old(self).sprite().stop_at(
                old(self).sprite().playback(),
            ),
    {
        self.sprite.stop_walk_animation()
    }

    /// The actor one pixel closer to its tile along each axis, and its
    /// sprite one tick later.
    pub open spec fn stepped_from(&self, before: &Actor) -> bool {
        &&& self.wf()
        &&& self.identifier == before.identifier
        &&& self.grid_x == before.grid_x
        &&& self.grid_y == before.grid_y
        &&& self.offset_x == before.offset_x - signum(before.offset_x as int)
        &&& self.offset_y == before.offset_y - signum(before.offset_y as int)
        &&& self.face_dir == before.face_dir
        &&& self.visible == before.visible
        &&& self.chest_type == before.chest_type
        &&& self.sprite().same_sheet(&before.sprite())
        &&& self.sprite().playback() == before.sprite().after_tick()
    }

    /// The actor one tile further in direction `dir`, drawn where it was:
    /// the step is still to be walked.
    pub open spec fn set_off(self, dir: Direction) -> Actor {
        Actor {
            grid_x: clamp_i32(self.grid_x + dir.dx()),
            grid_y: clamp_i32(self.grid_y + dir.dy()),
            offset_x: clamp_i32(self.offset_x - dir.dx() * TILE_SIZE),
            offset_y: clamp_i32(self.offset_y - dir.dy() * TILE_SIZE),
            ..self
        }
    }
}

impl Actor {
    /// The same actor at the same place; only the frame that its sprite
    /// shows may differ.
    pub open spec fn same_body(&self, before: &Actor) -> bool {
        &&& self.wf()
        &&& self.same_but_playback(before)
    }

    /// The same actor one pixel closer to its tile along each axis.
    pub open spec fn pixel_closer(&self, before: &Actor) -> bool {
        &&& self.wf()
        &&& self.identifier == before.identifier
        &&& self.grid_x == before.grid_x
        &&& self.grid_y == before.grid_y
        &&& self.offset_x == before.offset_x - signum(before.offset_x as int)
        &&& self.offset_y == before.offset_y - signum(before.offset_y as int)
        &&& self.face_dir == before.face_dir
        &&& self.visible == before.visible
        &&& self.chest_type == before.chest_type
        &&& self.sprite().same_sheet(&before.sprite())
    }
}

/// Every actor is sound.
pub open spec fn actors_wf(actors: Seq<Actor>) -> bool {
    forall|i: int| 0 <= i < actors.len() ==> (#[trigger] actors[i]).wf()
}

/// Lets one tick of time pass for the sprites of all actors.
pub fn animate_actors(actors: &mut Vec<Actor>)
    requires
        actors_wf(old(actors)@),
    ensures
        actors_wf(final(actors)@),
        final(actors)@.len() == old(actors)@.len(),
        forall|i: int|
            0 <= i < old(actors)@.len() ==> (#[trigger] final(actors)@[i]).same_but_playback(
                &old(actors)@[i],
            ) && final(actors)@[i].sprite().playback() == old(actors)@[i].sprite().after_tick(),
{
    let mut i: usize = 0;
    while i < actors.len()
        invariant
            i <= actors@.len() == old(actors)@.len(),
            actors_wf(actors@),
            forall|j: int|
                0 <= j < i ==> (#[trigger] actors@[j]).same_but_playback(&old(actors)@[j])
                    && actors@[j].sprite().playback() == old(actors)@[j].sprite().after_tick(),
            forall|j: int| i <= j < actors@.len() ==> #[trigger] actors@[j] == old(actors)@[j],
        decreases actors@.len() - i,
    {
        actors[i].animate();
        i = i + 1;
    }
}

/// Moves every actor one pixel closer to its tile along each axis.
pub fn move_actors(actors: &mut Vec<Actor>)
    ensures
        final(actors)@.len() == old(actors)@.len(),
        forall|i: int|
            0 <= i < old(actors)@.len() ==> {
                let a = #[trigger] final(actors)@[i];
                let b = old(actors)@[i];
                a == (Actor {
                    offset_x: (b.offset_x - signum(b.offset_x as int)) as i32,
                    offset_y: (b.offset_y - signum(b.offset_y as int)) as i32,
                    ..b
                })
            },
{
    let mut i: usize = 0;
    while i < actors.len()
        invariant
            i <= actors@.len() == old(actors)@.len(),
            forall|j: int|
                0 <= j < i ==> {
                    let a = #[trigger] actors@[j];
                    let b = old(actors)@[j];
                    a == (Actor {
                        offset_x: (b.offset_x - signum(b.offset_x as int)) as i32,
                        offset_y: (b.offset_y - signum(b.offset_y as int)) as i32,
                        ..b
                    })
                },
            forall|j: int| i <= j < actors@.len() ==> #[trigger] actors@[j] == old(actors)@[j],
        decreases actors@.len() - i,
    {
        let dx = signum_i32(actors[i].offset_x);
        let dy = signum_i32(actors[i].offset_y);
        actors[i].offset_x = actors[i].offset_x - dx;
        actors[i].offset_y = actors[i].offset_y - dy;
        i = i + 1;
    }
}

/// Pixels of the step in progress that the player has covered.
pub open spec fn offset_covered(player: &Actor) -> int {
    let x = if player.offset_x < 0 {
        -player.offset_x
    } else {
        player.offset_x as int
    };
    let y = if player.offset_y < 0 {
        -player.offset_y
    } else {
        player.offset_y as int
    };
    TILE_SIZE - if x > y {
        x
    } else {
        y
    }
}

/// One step of walking the player, the first actor, one tile in direction
/// `dir`.
///
/// The first step puts the player on the next tile, drawn where it
/// stood. Then, for as long as the player is not drawn on its tile, a
/// step moves all actors one pixel closer to their tiles, lets a tick
/// pass for their sprites, and reports pending. The step that finds the
/// player on its tile reports ready and changes nothing.
///
/// `started` tells whether the first step was taken; it is true after
/// the call.
pub fn walk_player(actors: &mut Vec<Actor>, dir: Direction, started: &mut bool) -> (r: Poll<()>)
    requires
        old(actors)@.len() > 0,
        actors_wf(old(actors)@),
    ensures
        *final(started),
        actors_wf(final(actors)@),
        final(actors)@.len() == old(actors)@.len(),
        walk_step(
            if *old(started) {
                old(actors)@
            } else {
                old(actors)@.update(0, old(actors)@[0].set_off(dir))
            },
            final(actors)@,
            r,
        ),
{
    if !*started {
        actors[0].grid_x = add_clamped(actors[0].grid_x, dir.dx());
        actors[0].grid_y = add_clamped(actors[0].grid_y, dir.dy());
        actors[0].offset_x = sub_clamped(actors[0].offset_x, dir.dx() * TILE_SIZE);
        actors[0].offset_y = sub_clamped(actors[0].offset_y, dir.dy() * TILE_SIZE);
        *started = true;
    }
    let ghost set = actors@;
    proof {
        assert(set =~= old(actors)@.update(0, set[0]));
        if *old(started) {
            assert(set =~= old(actors)@);
        } else {
            assert(set[0] == old(actors)@[0].set_off(dir));
        }
        assert(actors_wf(set)) by {
            assert forall|i: int| 0 <= i < set.len() implies (#[trigger] set[i]).wf() by {
                if i > 0 {
                    assert(set[i] == old(actors)@[i]);
                } else {
                    assert(set[0].sprite() == old(actors)@[0].sprite());
                }
            }
        }
    }
    if actors[0].offset_x != 0 || actors[0].offset_y != 0 {
        move_actors(actors);
        proof {
            assert forall|i: int| 0 <= i < actors@.len() implies (#[trigger] actors@[i]).wf() by {
                assert(actors@[i].sprite() == set[i].sprite());
            }
        }
        let ghost moved = actors@;
        animate_actors(actors);
        proof {
            assert forall|i: int| 0 <= i < set.len() implies (
            #[trigger] actors@[i]).stepped_from(&set[i]) by {
                assert(actors@[i].same_but_playback(&moved[i]));
                assert(moved[i].sprite() == set[i].sprite());
            }
        }
        Poll::Pending
    } else {
        Poll::Ready(())
    }
}

/// What a step of walking makes of the actors once the player has set off.
pub open spec fn walk_step(before: Seq<Actor>, after: Seq<Actor>, r: Poll<()>) -> bool {
    if before[0].offset_x != 0 || before[0].offset_y != 0 {
        &&& r is Pending
        &&& after.len() == before.len()
        &&& forall|i: int| 0 <= i < before.len() ==> (#[trigger] after[i]).stepped_from(&before[i])
    } else {
        &&& r is Ready
        &&& after == before
    }
}

} // verus!
