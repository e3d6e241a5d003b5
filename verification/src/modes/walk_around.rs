//! Free movement: the player walks from tile to tile through the level,
//! slides over ice, and runs into people, the edge of the level and
//! random encounters.
use vstd::prelude::*;
use crate::actor::{actors_wf, walk_player, Actor};
use crate::sprite::Playback;
use crate::async_utils::Poll;
use crate::contexts::ModeContext;
use crate::direction::Direction;
use crate::draw::{views, DrawCommand, DrawCommandView, SCREEN_HEIGHT, SCREEN_WIDTH};
use crate::input::{GameKey, Input};
use crate::levels::{Level, ICE_TILE, TILE_SIZE};
use crate::numeric::clamp;
use crate::progress::{Progress, NUM_STEP_COUNTS};

verus! {

/// Where an update of free movement stands.
#[derive(Clone, Copy, Debug, PartialEq, Eq, Structural)]
pub enum WalkPhase {
    /// No update is in progress.
    Start,
    /// The player stands on a tile.
    Idle,
    /// The player is on the way to the next tile in a direction.
    Walking { dir: Direction },
}

pub struct WalkAround {
    pub phase: WalkPhase,
}

#[derive(Clone, Copy, Debug, PartialEq, Eq, Structural)]
pub enum WalkAroundEvent {
    DebugMenu,
    Encounter,
    MainMenu,
    TalkActor(usize),
    TouchLevelEdge(Direction),
}

/// The direction that the held arrow keys ask for: up before right before
/// down before left.
pub open spec fn wanted_move(input: &Input) -> Option<Direction> {
    if input.key_down(GameKey::Up) {
        Some(Direction::North)
    } else if input.key_down(GameKey::Right) {
        Some(Direction::East)
    } else if input.key_down(GameKey::Down) {
        Some(Direction::South)
    } else if input.key_down(GameKey::Left) {
        Some(Direction::West)
    } else {
        None
    }
}

/// Position of the first actor from position `from` on that stands on
/// the tile (`x`, `y`), or the number of actors where none does.
pub open spec fn first_actor_at(actors: Seq<Actor>, from: int, x: int, y: int) -> int
    decreases actors.len() - from,
{
    if from >= actors.len() {
        actors.len() as int
    } else if from >= 0 && actors[from].grid_x == x && actors[from].grid_y == y {
        from
    } else {
        first_actor_at(actors, from + 1, x, y)
    }
}

/// The first actor but the player on the tile next to (`x`, `y`) in
/// direction `dir`.
pub open spec fn npc_at(actors: Seq<Actor>, x: int, y: int, dir: Direction) -> Option<int> {
    let i = first_actor_at(actors, 1, x + dir.dx(), y + dir.dy());
    if i < actors.len() {
        Some(i)
    } else {
        None
    }
}

pub proof fn lemma_first_actor_at(actors: Seq<Actor>, from: int, x: int, y: int)
    requires
        0 <= from,
    ensures
        from <= first_actor_at(actors, from, x, y) || first_actor_at(actors, from, x, y)
            == actors.len(),
        first_actor_at(actors, from, x, y) <= actors.len(),
        first_actor_at(actors, from, x, y) < actors.len() ==> actors[first_actor_at(
            actors,
            from,
            x,
            y,
        )].grid_x == x && actors[first_actor_at(actors, from, x, y)].grid_y == y,
        forall|j: int|
            from <= j < first_actor_at(actors, from, x, y) ==> !((#[trigger] actors[j]).grid_x == x
                && actors[j].grid_y == y),
    decreases actors.len() - from,
{
    if from < actors.len() && !(actors[from].grid_x == x && actors[from].grid_y == y) {
        lemma_first_actor_at(actors, from + 1, x, y);
    }
}

/// Where the actors stand is the same in both lists.
pub open spec fn same_places(a: Seq<Actor>, b: Seq<Actor>) -> bool {
    &&& a.len() == b.len()
    &&& forall|i: int|
        0 <= i < a.len() ==> (#[trigger] a[i]).grid_x == b[i].grid_x && a[i].grid_y == b[i].grid_y
}

pub proof fn lemma_same_places(a: Seq<Actor>, b: Seq<Actor>, from: int, x: int, y: int)
    requires
        same_places(a, b),
        0 <= from,
    ensures
        first_actor_at(a, from, x, y) == first_actor_at(b, from, x, y),
    decreases a.len() - from,
{
    if from < a.len() {
        assert(a[from].grid_x == b[from].grid_x && a[from].grid_y == b[from].grid_y);
        if !(a[from].grid_x == x && a[from].grid_y == y) {
            lemma_same_places(a, b, from + 1, x, y);
        }
    }
}

/// Width of the level in tiles.
pub open spec fn level_c_wid(level: &Level) -> int {
    level.px_wid as int / TILE_SIZE as int
}

/// Height of the level in tiles.
pub open spec fn level_c_hei(level: &Level) -> int {
    level.px_hei as int / TILE_SIZE as int
}

/// The way from the tile (`x`, `y`) in direction `dir` is barred by the
/// level or by an actor.
pub open spec fn way_barred(level: &Level, actors: Seq<Actor>, x: int, y: int, dir: Direction) -> bool {
    level.edge_blocked(x, y, dir) || npc_at(actors, x, y, dir) is Some
}

/// A step from the tile (`x`, `y`) in direction `dir` leaves the level:
/// the tile lies in the level, on the edge that the step crosses.
pub open spec fn leaves_level(level: &Level, x: int, y: int, dir: Direction) -> bool {
    let w = level_c_wid(level);
    let h = level_c_hei(level);
    &&& 0 <= x < w && 0 <= y < h
    &&& (y == 0 && dir == Direction::North || x == w - 1 && dir == Direction::East || y == h - 1
        && dir == Direction::South || x == 0 && dir == Direction::West)
}

/// A player who arrived on the tile (`x`, `y`) in direction `dir` slides
/// on: the tile is ice, the next tile lies in the level, and nothing bars
/// the way.
pub open spec fn slides_on(level: &Level, actors: Seq<Actor>, x: int, y: int, dir: Direction) -> bool {
    let w = level_c_wid(level);
    let h = level_c_hei(level);
    let next_x = x + dir.dx();
    let next_y = y + dir.dy();
    &&& 0 <= next_x < w && 0 <= next_y < h
    &&& level.base().in_bounds(x, y) && level.base().tile(x, y) == ICE_TILE
    &&& !way_barred(level, actors, x, y, dir)
}

/// `v + 1`, or the largest `i32` where `v` is that already.
pub open spec fn one_more(v: i32) -> i32 {
    if v == i32::MAX {
        v
    } else {
        (v + 1) as i32
    }
}

/// The step counter that counts steps in a level: the one of the level's
/// encounter group, or the last one, for levels without encounters.
pub open spec fn step_counter(level: &Level) -> int {
    match level.encounters {
        Some(group) => group.spec_index(),
        None => NUM_STEP_COUNTS - 1,
    }
}

/// The camera shows the point of the level that the player stands on,
/// as far as the level reaches; a level smaller than the screen is shown
/// from its middle.
pub open spec fn camera(level_size: i32, screen_size: i32, grid: i32, offset: i32) -> i32 {
    if level_size >= screen_size {
        clamp(
            TILE_SIZE * grid + offset + TILE_SIZE / 2,
            screen_size as int / 2,
            level_size - screen_size as int / 2,
        ) as i32
    } else {
        (level_size as int / 2) as i32
    }
}

fn camera_at(level_size: i32, screen_size: i32, grid: i32, offset: i32) -> (c: i32)
    requires
        level_size >= 0,
        screen_size == SCREEN_WIDTH || screen_size == SCREEN_HEIGHT,
    ensures
        c == camera(level_size, screen_size, grid, offset),
{
    if level_size >= screen_size {
        let half = (screen_size / 2) as i64;
        let at: i64 = 16 * (grid as i64) + offset as i64 + 8;
        let low = if at > half {
            at
        } else {
            half
        };
        let high = level_size as i64 - half;
        let c = if low < high {
            low
        } else {
            high
        };
        c as i32
    } else {
        level_size / 2
    }
}

/// What drawing the actors from position `from` on appends.
pub open spec fn actors_drawn(actors: Seq<Actor>, camera_x: i32, camera_y: i32) -> Seq<
    DrawCommandView,
>
    decreases actors.len(),
{
    if actors.len() == 0 {
        Seq::empty()
    } else {
        actors_drawn(actors.drop_last(), camera_x, camera_y) + actors.last().drawn(
            camera_x,
            camera_y,
        )
    }
}

impl WalkAround {
    pub fn new() -> (w: WalkAround)
        ensures
            w.phase == WalkPhase::Start,
    {
        WalkAround { phase: WalkPhase::Start }
    }

    /// What must hold between updates: the context is sound, and a player
    /// who is not on the way stands on a tile.
    pub open spec fn inv(&self, ctx: &ModeContext) -> bool {
        &&& ctx.wf()
        &&& !(self.phase is Walking) ==> ctx.actors@[0].offset_x == 0 && ctx.actors@[0].offset_y
            == 0
    }

    pub open spec fn camera_x(ctx: &ModeContext) -> i32 {
        camera(ctx.level.px_wid, SCREEN_WIDTH, ctx.actors@[0].grid_x, ctx.actors@[0].offset_x)
    }

    pub open spec fn camera_y(ctx: &ModeContext) -> i32 {
        camera(ctx.level.px_hei, SCREEN_HEIGHT, ctx.actors@[0].grid_y, ctx.actors@[0].offset_y)
    }

    /// What [`WalkAround::draw`] appends: the level, then the actors in
    /// their order, all seen from the camera that follows the player.
    pub open spec fn drawn(ctx: &ModeContext) -> Seq<DrawCommandView> {
        Level::drawn(WalkAround::camera_x(ctx), WalkAround::camera_y(ctx)) + actors_drawn(ctx.actors@, WalkAround::camera_x(ctx), WalkAround::camera_y(ctx))
    }

    pub fn draw(&self, ctx: &ModeContext, out: &mut Vec<DrawCommand>)
        requires
            ctx.wf(),
        ensures
            views(final(out)@) == views(old(out)@) + WalkAround::drawn(ctx),
    {
        let camera_x = camera_at(
            ctx.level.px_wid,
            SCREEN_WIDTH,
            ctx.actors[0].grid_x,
            ctx.actors[0].offset_x,
        );
        let camera_y = camera_at(
            ctx.level.px_hei,
            SCREEN_HEIGHT,
            ctx.actors[0].grid_y,
            ctx.actors[0].offset_y,
        );
        ctx.level.draw(out, camera_x, camera_y);
        let ghost start = views(out@);
        let mut i: usize = 0;
        assert(start + actors_drawn(ctx.actors@.take(0), camera_x, camera_y) =~= start);
        while i < ctx.actors.len()
            invariant
                i <= ctx.actors@.len(),
                actors_wf(ctx.actors@),
                views(out@) == start + actors_drawn(ctx.actors@.take(i as int), camera_x, camera_y),
            decreases ctx.actors@.len() - i,
        {
            ctx.actors[i].draw(out, camera_x, camera_y);
            proof {
                let next = ctx.actors@.take(i + 1);
                assert(next.drop_last() =~= ctx.actors@.take(i as int));
                assert(next.last() == ctx.actors@[i as int]);
                assert(views(out@) =~= start + actors_drawn(next, camera_x, camera_y));
            }
            i = i + 1;
        }
        assert(ctx.actors@.take(ctx.actors@.len() as int) =~= ctx.actors@);
        assert(views(out@) =~= views(old(out)@) + WalkAround::drawn(ctx));
    }

    /// Nothing changed but the actors.
    pub open spec fn only_actors(ctx: &ModeContext, before: &ModeContext) -> bool {
        *ctx == (ModeContext { actors: ctx.actors, ..*before })
    }

    /// All actors are the same at the same places.
    pub open spec fn same_bodies(after: Seq<Actor>, before: Seq<Actor>) -> bool {
        &&& after.len() == before.len()
        &&& forall|i: int| 0 <= i < before.len() ==> (#[trigger] after[i]).same_body(&before[i])
    }

    /// All actors are one pixel closer to their tiles.
    pub open spec fn pixel_closer(after: Seq<Actor>, before: Seq<Actor>) -> bool {
        &&& after.len() == before.len()
        &&& forall|i: int| 0 <= i < before.len() ==> (#[trigger] after[i]).pixel_closer(&before[i])
    }

    /// The player turned to face in direction `dir`; nothing else about the
    /// places of the actors changed.
    pub open spec fn turned(after: Seq<Actor>, before: Seq<Actor>, dir: Direction) -> bool {
        WalkAround::same_bodies(after, before.update(0, Actor { face_dir: dir, ..before[0] }))
    }

    /// The player set off from its tile in direction `dir`, and all
    /// actors moved the first pixel.
    pub open spec fn set_off(after: Seq<Actor>, before: Seq<Actor>, dir: Direction) -> bool {
        WalkAround::pixel_closer(after, before.update(0, before[0].set_off(dir)))
    }

    /// What the sprites of the actors play after a poll: the sprite of
    /// the player goes on from `player`, every other sprite from what it
    /// played, and where `tick` holds all of them are one tick on.
    pub open spec fn plays(after: Seq<Actor>, before: Seq<Actor>, player: Playback, tick: bool) -> bool {
        &&& after.len() == before.len()
        &&& forall|i: int|
            0 <= i < before.len() ==> (#[trigger] after[i]).sprite().playback()
                == WalkAround::played(before, i, player, tick)
    }

    /// What the sprite of actor `i` plays after a poll.
    pub open spec fn played(before: Seq<Actor>, i: int, player: Playback, tick: bool) -> Playback {
        let from = if i == 0 {
            player
        } else {
            before[i].sprite().playback()
        };
        if tick {
            before[i].sprite().tick_at(from)
        } else {
            from
        }
    }

    /// What the player's sprite plays once it was set to walk in direction `dir`.
    pub open spec fn walking_to(player: &Actor, dir: Direction) -> Playback {
        player.sprite().start_at(player.sprite().playback(), crate::sprite::walk_tag(dir))
    }

    /// What a poll makes of the context when it finds the player on a tile
    /// with no arrow key held: nothing moves, and a key that was pressed
    /// ends the update. Confirm talks to the actor that the player faces,
    /// if there is one, cancel opens the main menu, and the debug key the
    /// debug menu.
    pub open spec fn step_standing(
        &self,
        ctx: &ModeContext,
        before: &ModeContext,
        r: Poll<WalkAroundEvent>,
    ) -> bool {
        let player = before.actors@[0];
        &&& self.phase == if r is Ready {
            WalkPhase::Start
        } else {
            WalkPhase::Idle
        }
        &&& WalkAround::only_actors(ctx, before)
        &&& WalkAround::same_bodies(ctx.actors@, before.actors@)
        &&& WalkAround::plays(
            ctx.actors@,
            before.actors@,
            player.sprite().stop_at(player.sprite().playback()),
            false,
        )
        &&& r == if before.input.key_pressed(GameKey::Confirm) {
            match npc_at(before.actors@, player.grid_x as int, player.grid_y as int, player.face_dir) {
                Some(npc) => Poll::Ready(WalkAroundEvent::TalkActor(npc as usize)),
                None => Poll::Pending,
            }
        } else if before.input.key_pressed(GameKey::Cancel) {
            Poll::Ready(WalkAroundEvent::MainMenu)
        } else if before.input.key_pressed(GameKey::DebugMenu) {
            Poll::Ready(WalkAroundEvent::DebugMenu)
        } else {
            Poll::Pending
        }
    }

    /// What a poll makes of mode and context when it finds the player on a
    /// tile with an arrow key held: the player turns that way. Where the
    /// way is barred the player stays; where the step leaves the level the
    /// update ends; else the player sets off.
    pub open spec fn step_moving(
        &self,
        ctx: &ModeContext,
        before: &ModeContext,
        dir: Direction,
        r: Poll<WalkAroundEvent>,
    ) -> bool {
        let x = before.actors@[0].grid_x as int;
        let y = before.actors@[0].grid_y as int;
        let faced = before.actors@.update(0, Actor { face_dir: dir, ..before.actors@[0] });
        let walking = WalkAround::walking_to(&before.actors@[0], dir);
        &&& WalkAround::only_actors(ctx, before)
        &&& if way_barred(&before.level, before.actors@, x, y, dir) {
            &&& r is Pending
            &&& self.phase == WalkPhase::Idle
            &&& WalkAround::same_bodies(ctx.actors@, faced)
            &&& WalkAround::plays(
                ctx.actors@,
                before.actors@,
                before.actors@[0].sprite().stop_at(walking),
                false,
            )
        } else if leaves_level(&before.level, x, y, dir) {
            &&& r == Poll::Ready(WalkAroundEvent::TouchLevelEdge(dir))
            &&& self.phase == WalkPhase::Start
            &&& WalkAround::same_bodies(ctx.actors@, faced)
            &&& WalkAround::plays(ctx.actors@, before.actors@, walking, false)
        } else {
            &&& r is Pending
            &&& self.phase == WalkPhase::Walking { dir }
            &&& WalkAround::set_off(ctx.actors@, faced, dir)
            &&& WalkAround::plays(ctx.actors@, before.actors@, walking, true)
        }
    }

    /// What a poll makes of the context when the player has arrived on a
    /// tile and does not slide on: the step is counted, and in a level
    /// with encounters the step that uses up the steps to the next
    /// encounter ends the update.
    pub open spec fn step_counted(ctx: &ModeContext, before: &ModeContext, r: Poll<WalkAroundEvent>) -> bool {
        let counter = step_counter(&before.level);
        &&& *ctx == (ModeContext {
            actors: ctx.actors,
            progress: ctx.progress,
            encounter_steps: ctx.encounter_steps,
            ..*before
        })
        &&& ctx.actors@ == before.actors@
        &&& ctx.progress == (Progress { steps: ctx.progress.steps, ..before.progress })
        &&& ctx.progress.steps@ == before.progress.steps@.update(
            counter,
            one_more(before.progress.steps@[counter]),
        )
        &&& if before.level.encounters is Some {
            if before.encounter_steps > 1 {
                r is Pending && ctx.encounter_steps == before.encounter_steps - 1
            } else {
                r == Poll::Ready(WalkAroundEvent::Encounter) && ctx.encounter_steps
                    == before.encounter_steps
            }
        } else {
            r is Pending && ctx.encounter_steps == before.encounter_steps
        }
    }

    /// What a poll makes of mode and context while the player is on the
    /// way in direction `dir`. A player between tiles gets one pixel
    /// closer, with all other actors. A player who has arrived slides on
    /// over ice, and is else counted a step and stands.
    pub open spec fn step_walking(
        &self,
        ctx: &ModeContext,
        before: &ModeContext,
        dir: Direction,
        r: Poll<WalkAroundEvent>,
    ) -> bool {
        let player = before.actors@[0];
        if player.offset_x != 0 || player.offset_y != 0 {
            &&& r is Pending
            &&& self.phase == WalkPhase::Walking { dir }
            &&& WalkAround::only_actors(ctx, before)
            &&& WalkAround::pixel_closer(ctx.actors@, before.actors@)
            &&& WalkAround::plays(ctx.actors@, before.actors@, player.sprite().playback(), true)
        } else if slides_on(
            &before.level,
            before.actors@,
            player.grid_x as int,
            player.grid_y as int,
            dir,
        ) {
            &&& r is Pending
            &&& self.phase == WalkPhase::Walking { dir }
            &&& WalkAround::only_actors(ctx, before)
            &&& WalkAround::set_off(ctx.actors@, before.actors@, dir)
            &&& WalkAround::plays(
                ctx.actors@,
                before.actors@,
                player.sprite().stop_at(player.sprite().playback()),
                true,
            )
        } else {
            &&& self.phase == if r is Ready {
                WalkPhase::Start
            } else {
                WalkPhase::Idle
            }
            &&& WalkAround::step_counted(ctx, before, r)
        }
    }

    /// What one poll makes of the mode and its context. The first poll of
    /// an update only lets a tick pass.
    pub open spec fn step(
        &self,
        before: &WalkAround,
        ctx: &ModeContext,
        ctx_before: &ModeContext,
        r: Poll<WalkAroundEvent>,
    ) -> bool {
        match before.phase {
            WalkPhase::Start => {
                &&& r is Pending
                &&& self.phase == WalkPhase::Idle
                &&& *ctx == *ctx_before
            },
            WalkPhase::Idle => match wanted_move(&ctx_before.input) {
                None => self.step_standing(ctx, ctx_before, r),
                Some(dir) => self.step_moving(ctx, ctx_before, dir, r),
            },
            WalkPhase::Walking { dir } => self.step_walking(ctx, ctx_before, dir, r),
        }
    }

    /// Runs free movement up to its next suspension point or to its end.
    pub fn update(&mut self, mctx: &mut ModeContext) -> (r: Poll<WalkAroundEvent>)
        requires
            old(self).inv(old(mctx)),
        ensures
            final(self).inv(final(mctx)),
            final(self).step(old(self), final(mctx), old(mctx), r),
    {
        match self.phase {
            WalkPhase::Start => {
                self.phase = WalkPhase::Idle;
                Poll::Pending
            },
            WalkPhase::Idle => self.update_idle(mctx),
            WalkPhase::Walking { dir } => self.update_walking(mctx, dir),
        }
    }

    fn update_idle(&mut self, mctx: &mut ModeContext) -> (r: Poll<WalkAroundEvent>)
        requires
            old(self).inv(old(mctx)),
            old(self).phase == WalkPhase::Idle,
        ensures
            final(self).inv(final(mctx)),
            final(self).step(old(self), final(mctx), old(mctx), r),
    {
        let player_move = if mctx.input.is_key_down(GameKey::Up) {
            Some(Direction::North)
        } else if mctx.input.is_key_down(GameKey::Right) {
            Some(Direction::East)
        } else if mctx.input.is_key_down(GameKey::Down) {
            Some(Direction::South)
        } else if mctx.input.is_key_down(GameKey::Left) {
            Some(Direction::West)
        } else {
            None
        };
        let grid_x = mctx.actors[0].grid_x;
        let grid_y = mctx.actors[0].grid_y;
        match player_move {
            Some(dir) => {
                mctx.actors[0].face_dir = dir;
                let ghost faced = mctx.actors@;
                assert(faced =~= old(mctx).actors@.update(
                    0,
                    Actor { face_dir: dir, ..old(mctx).actors@[0] },
                ));
                let _ = mctx.actors[0].start_walk_animation(dir);
                proof {
                    lemma_places_kept(mctx.actors@, faced);
                    lemma_places_kept(faced, old(mctx).actors@);
                }
                let barred = mctx.level.is_edge_blocked(grid_x, grid_y, dir) || npc_actor_at(
                    &mctx.actors,
                    grid_x,
                    grid_y,
                    dir,
                ).is_some();
                proof {
                    lemma_same_places(
                        mctx.actors@,
                        old(mctx).actors@,
                        1,
                        grid_x + dir.dx(),
                        grid_y + dir.dy(),
                    );
                }
                if barred {
                    let _ = mctx.actors[0].stop_walk_animation();
                    proof {
                        lemma_bodies_kept(mctx.actors@, faced);
                    }
                    Poll::Pending
                } else {
                    let c_level_wid = mctx.level.px_wid / TILE_SIZE;
                    let c_level_hei = mctx.level.px_hei / TILE_SIZE;
                    let in_bounds = grid_x >= 0 && grid_x < c_level_wid && grid_y >= 0 && grid_y
                        < c_level_hei;
                    if in_bounds && (grid_y == 0 && dir == Direction::North || grid_x == c_level_wid
                        - 1 && dir == Direction::East || grid_y == c_level_hei - 1 && dir
                        == Direction::South || grid_x == 0 && dir == Direction::West) {
                        proof {
                            lemma_bodies_kept(mctx.actors@, faced);
                        }
                        self.phase = WalkPhase::Start;
                        Poll::Ready(WalkAroundEvent::TouchLevelEdge(dir))
                    } else {
                        proof {
                            lemma_bodies_kept(mctx.actors@, faced);
                        }
                        self.begin_walk(mctx, dir, Ghost(faced));
                        Poll::Pending
                    }
                }
            },
            None => {
                let _ = mctx.actors[0].stop_walk_animation();
                proof {
                    lemma_bodies_kept(mctx.actors@, old(mctx).actors@);
                    lemma_places_kept(mctx.actors@, old(mctx).actors@);
                }
                if mctx.input.is_key_pressed(GameKey::Confirm) {
                    let face_dir = mctx.actors[0].face_dir;
                    proof {
                        lemma_same_places(
                            mctx.actors@,
                            old(mctx).actors@,
                            1,
                            grid_x + face_dir.dx(),
                            grid_y + face_dir.dy(),
                        );
                    }
                    match npc_actor_at(&mctx.actors, grid_x, grid_y, face_dir) {
                        Some(npc) => {
                            self.phase = WalkPhase::Start;
                            Poll::Ready(WalkAroundEvent::TalkActor(npc))
                        },
                        None => Poll::Pending,
                    }
                } else if mctx.input.is_key_pressed(GameKey::Cancel) {
                    self.phase = WalkPhase::Start;
                    Poll::Ready(WalkAroundEvent::MainMenu)
                } else if mctx.input.is_key_pressed(GameKey::DebugMenu) {
                    self.phase = WalkPhase::Start;
                    Poll::Ready(WalkAroundEvent::DebugMenu)
                } else {
                    Poll::Pending
                }
            },
        }
    }

    /// Sets the player off in direction `dir` and walks the first pixel.
    fn begin_walk(&mut self, mctx: &mut ModeContext, dir: Direction, origin: Ghost<Seq<Actor>>)
        requires
            old(mctx).wf(),
            old(mctx).actors@[0].offset_x == 0 && old(mctx).actors@[0].offset_y == 0,
            WalkAround::same_bodies(old(mctx).actors@, origin@),
        ensures
            final(mctx).wf(),
            final(self).phase == (WalkPhase::Walking { dir }),
            WalkAround::only_actors(final(mctx), old(mctx)),
            WalkAround::set_off(final(mctx).actors@, origin@, dir),
            WalkAround::plays(
                final(mctx).actors@,
                old(mctx).actors@,
                old(mctx).actors@[0].sprite().playback(),
                true,
            ),
    {
        let ghost from = origin@;
        let mut started = false;
        let ghost start = mctx.actors@;
        let r = walk_player(&mut mctx.actors, dir, &mut started);
        proof {
            let set = start.update(0, start[0].set_off(dir));
            assert(set[0].offset_x != 0 || set[0].offset_y != 0) by {
                match dir {
                    Direction::North => {},
                    Direction::East => {},
                    Direction::South => {},
                    Direction::West => {},
                }
            }
            let target = from.update(0, from[0].set_off(dir));
            assert forall|i: int| 0 <= i < from.len() implies (
            #[trigger] mctx.actors@[i]).pixel_closer(&target[i]) by {
                assert(mctx.actors@[i].stepped_from(&set[i]));
                assert(start[i].same_body(&from[i]));
            }
        }
        self.phase = WalkPhase::Walking { dir };
    }

    fn update_walking(&mut self, mctx: &mut ModeContext, dir: Direction) -> (r: Poll<
        WalkAroundEvent,
    >)
        requires
            old(self).inv(old(mctx)),
            old(self).phase == (WalkPhase::Walking { dir }),
        ensures
            final(self).inv(final(mctx)),
            final(self).step(old(self), final(mctx), old(mctx), r),
    {
        let mut started = true;
        match walk_player(&mut mctx.actors, dir, &mut started) {
            Poll::Pending => {
                proof {
                    assert forall|i: int| 0 <= i < old(mctx).actors@.len() implies (
                    #[trigger] mctx.actors@[i]).pixel_closer(&old(mctx).actors@[i]) by {
                        assert(mctx.actors@[i].stepped_from(&old(mctx).actors@[i]));
                    }
                }
                Poll::Pending
            },
            Poll::Ready(_) => {
                let grid_x = mctx.actors[0].grid_x;
                let grid_y = mctx.actors[0].grid_y;
                let c_level_wid = mctx.level.px_wid / TILE_SIZE;
                let c_level_hei = mctx.level.px_hei / TILE_SIZE;
                let next_x = grid_x as i64 + dir.dx() as i64;
                let next_y = grid_y as i64 + dir.dy() as i64;
                let next_step_in_bounds = next_x >= 0 && next_x < c_level_wid as i64 && next_y >= 0
                    && next_y < c_level_hei as i64;
                let slides = next_step_in_bounds && mctx.level.is_ice_tile(grid_x, grid_y)
                    && !mctx.level.is_edge_blocked(grid_x, grid_y, dir) && npc_actor_at(
                    &mctx.actors,
                    grid_x,
                    grid_y,
                    dir,
                ).is_none();
                if slides {
                    let _ = mctx.actors[0].stop_walk_animation();
                    proof {
                        lemma_bodies_kept(mctx.actors@, old(mctx).actors@);
                    }
                    self.begin_walk(mctx, dir, Ghost(old(mctx).actors@));
                    Poll::Pending
                } else {
                    self.phase = WalkPhase::Idle;
                    let counter: usize = match mctx.level.encounters {
                        Some(group) => group.index(),
                        None => NUM_STEP_COUNTS - 1,
                    };
                    let steps = mctx.progress.steps[counter];
                    mctx.progress.steps[counter] = if steps == i32::MAX {
                        steps
                    } else {
                        steps + 1
                    };
                    if mctx.level.encounters.is_some() {
                        if mctx.encounter_steps > 1 {
                            mctx.encounter_steps = mctx.encounter_steps - 1;
                            Poll::Pending
                        } else {
                            self.phase = WalkPhase::Start;
                            Poll::Ready(WalkAroundEvent::Encounter)
                        }
                    } else {
                        Poll::Pending
                    }
                }
            },
        }
    }
}

/// Where one actor of a list changed only its sprite, the actors are the
/// same at the same places.
proof fn lemma_bodies_kept(after: Seq<Actor>, before: Seq<Actor>)
    requires
        after.len() == before.len(),
        after.len() > 0,
        actors_wf(before),
        after[0].wf(),
        after[0].same_but_playback(&before[0]),
        forall|i: int| 1 <= i < after.len() ==> #[trigger] after[i] == before[i],
    ensures
        WalkAround::same_bodies(after, before),
        actors_wf(after),
{
    assert forall|i: int| 0 <= i < before.len() implies (#[trigger] after[i]).same_body(
        &before[i],
    ) by {
        if i > 0 {
            assert(after[i] == before[i]);
        }
    }
}

/// Where only the player changed and kept its tile, all actors kept their tiles.
proof fn lemma_places_kept(after: Seq<Actor>, before: Seq<Actor>)
    requires
        after.len() == before.len(),
        after.len() > 0,
        after[0].grid_x == before[0].grid_x,
        after[0].grid_y == before[0].grid_y,
        forall|i: int| 1 <= i < after.len() ==> #[trigger] after[i] == before[i],
    ensures
        same_places(after, before),
{
    assert forall|i: int| 0 <= i < after.len() implies (#[trigger] after[i]).grid_x
        == before[i].grid_x && after[i].grid_y == before[i].grid_y by {
        if i > 0 {
            assert(after[i] == before[i]);
        }
    }
}

/// The first actor but the player on the tile next to (`grid_x`,
/// `grid_y`) in direction `face_dir`.
pub fn npc_actor_at(actors: &Vec<Actor>, grid_x: i32, grid_y: i32, face_dir: Direction) -> (r:
    Option<usize>)
    ensures
        r is Some == (npc_at(actors@, grid_x as int, grid_y as int, face_dir) is Some),
        r matches Some(i) ==> npc_at(actors@, grid_x as int, grid_y as int, face_dir) == Some(
            i as int,
        ),
{
    let x: i64 = grid_x as i64 + face_dir.dx() as i64;
    let y: i64 = grid_y as i64 + face_dir.dy() as i64;
    let mut i: usize = 1;
    while i < actors.len()
        invariant
            1 <= i,
            x == grid_x + face_dir.dx(),
            y == grid_y + face_dir.dy(),
            first_actor_at(actors@, 1, x as int, y as int) == first_actor_at(
                actors@,
                i as int,
                x as int,
                y as int,
            ),
        decreases actors@.len() - i,
    {
        if actors[i].grid_x as i64 == x && actors[i].grid_y as i64 == y {
            return Some(i);
        }
        i = i + 1;
    }
    None
}

} // verus!
