//! The state that a mode works on while it is updated: the keyboard, the
//! sound, the player's progress, the level and its actors.
use vstd::prelude::*;
use crate::actor::{actors_wf, Actor, ActorError, ActorType};
use crate::async_utils::Poll;
use crate::audio::{Audio, AudioCommand, Sfx};
use crate::direction::Direction;
use crate::enemy::Enemy;
use crate::levels::{
    built_from, cell_synced, LevelError, LevelSet, TILE_SIZE,
};
use crate::modes::battle::{Battle, BattleEvent, BattlePhase};
use crate::modes::debug_menu::{DebugMenu, DebugMenuEvent, DebugMenuPhase};
use crate::modes::main_menu::{MainMenu, MainMenuEvent, MainMenuPhase};
use crate::modes::text_box::{TextBox, TextBoxEvent, TextBoxPhase};
use crate::modes::walk_around::{WalkAround, WalkAroundEvent, WalkPhase};
use crate::modes::{Mode, ModeKind, ModeStack};
use crate::strings::str_eq;
use crate::fade::Fade;
use crate::input::Input;
use crate::levels::Level;
use crate::progress::Progress;
use crate::random::Rng;
use crate::resources::Resources;
use crate::saved_options::SavedOptions;

verus! {

pub struct ModeContext {
    pub res: Resources,
    pub input: Input,
    pub audio: Audio,
    pub rng: Rng,
    pub progress: Progress,
    pub level: Level,
    pub actors: Vec<Actor>,
    pub fade: Fade,
    /// Steps left until the next random encounter.
    pub encounter_steps: i32,
    /// Options that were changed and are to be written to storage.
    pub options_to_save: Option<SavedOptions>,
}

impl ModeContext {
    /// The parts are sound, and the level has its player: the first actor.
    pub open spec fn wf(&self) -> bool {
        &&& self.res.window_textures.wf()
        &&& self.audio.wf()
        &&& self.progress.wf()
        &&& self.level.wf()
        &&& self.actors@.len() > 0
        &&& actors_wf(self.actors@)
    }

    /// Nothing changed but the sound, which got the commands that play
    /// the given effects in their order.
    pub open spec fn played(&self, before: &ModeContext, effects: Seq<Sfx>) -> bool {
        &&& *self == (ModeContext { audio: self.audio, ..*before })
        &&& self.audio.same_state(&before.audio)
        &&& self.audio.commands() == before.audio.commands() + sfx_commands(
            &before.audio,
            effects,
        )
    }
}

/// The commands that play the given effects in their order.
pub open spec fn sfx_commands(audio: &Audio, effects: Seq<Sfx>) -> Seq<AudioCommand>
    decreases effects.len(),
{
    if effects.len() == 0 {
        Seq::empty()
    } else {
        sfx_commands(audio, effects.drop_last()) + audio.sfx_commands(effects.last())
    }
}

/// Playing no effect gives no command, and playing one gives its commands.
pub proof fn lemma_sfx_commands(audio: &Audio, sfx: Sfx)
    ensures
        sfx_commands(audio, Seq::empty()) == Seq::<AudioCommand>::empty(),
        sfx_commands(audio, seq![sfx]) == audio.sfx_commands(sfx),
{
    reveal_with_fuel(sfx_commands, 3);
    assert(seq![sfx].drop_last() =~= Seq::<Sfx>::empty());
    assert(seq![sfx].last() == sfx);
    assert(sfx_commands(audio, seq![sfx]) =~= audio.sfx_commands(sfx));
}

/// The state that the story works on: the stack of modes, what the modes
/// work on, and the levels of the world.
pub struct ScriptContext {
    pub modes: ModeStack,
    pub mctx: ModeContext,
    pub levels: LevelSet,
}

/// Position of the first name that equals `name`, or the number of names
/// where none does.
pub open spec fn name_position(names: Seq<String>, name: Seq<char>) -> int
    decreases names.len(),
{
    if names.len() == 0 {
        0
    } else if names[0]@ == name {
        0
    } else {
        1 + name_position(names.drop_first(), name)
    }
}

pub proof fn lemma_name_position(names: Seq<String>, name: Seq<char>)
    ensures
        0 <= name_position(names, name) <= names.len(),
        name_position(names, name) < names.len() ==> names[name_position(names, name)]@ == name,
        forall|j: int| 0 <= j < name_position(names, name) ==> (#[trigger] names[j])@ != name,
    decreases names.len(),
{
    if names.len() > 0 && names[0]@ != name {
        lemma_name_position(names.drop_first(), name);
        assert forall|j: int| 0 <= j < name_position(names, name) implies (#[trigger] names[j])@
            != name by {
            if j > 0 {
                assert(names[j] == names.drop_first()[j - 1]);
            }
        }
    }
}

/// `name` is one of the names.
pub open spec fn name_listed(names: Seq<String>, name: Seq<char>) -> bool {
    name_position(names, name) < names.len()
}

/// Position of the first name that equals `name`.
pub fn position_of(names: &Vec<String>, name: &str) -> (r: Option<usize>)
    ensures
        r is Some == (name_position(names@, name@) < names@.len()),
        r matches Some(i) ==> i == name_position(names@, name@),
{
    let mut i: usize = 0;
    while i < names.len() && !str_eq(names[i].as_str(), name)
        invariant
            i <= names@.len(),
            forall|j: int| 0 <= j < i ==> (#[trigger] names@[j])@ != name@,
        decreases names@.len() - i,
    {
        i = i + 1;
    }
    proof {
        lemma_name_position(names@, name@);
        let f = name_position(names@, name@);
        if f < i {
            assert(names@[f]@ == name@);
        }
        if i < f {
            assert(names@[i as int]@ != name@);
        }
    }
    if i < names.len() {
        Some(i)
    } else {
        None
    }
}

/// Position of the first actor of a kind, or the number of actors where
/// there is none.
pub open spec fn actor_position(actors: Seq<Actor>, kind: ActorType) -> int
    decreases actors.len(),
{
    if actors.len() == 0 {
        0
    } else if actors[0].identifier == kind {
        0
    } else {
        1 + actor_position(actors.drop_first(), kind)
    }
}

pub proof fn lemma_actor_position(actors: Seq<Actor>, kind: ActorType)
    ensures
        0 <= actor_position(actors, kind) <= actors.len(),
        actor_position(actors, kind) < actors.len() ==> actors[actor_position(
            actors,
            kind,
        )].identifier == kind,
        forall|j: int|
            0 <= j < actor_position(actors, kind) ==> (#[trigger] actors[j]).identifier != kind,
    decreases actors.len(),
{
    if actors.len() > 0 && actors[0].identifier != kind {
        lemma_actor_position(actors.drop_first(), kind);
        assert forall|j: int| 0 <= j < actor_position(actors, kind) implies (
        #[trigger] actors[j]).identifier != kind by {
            if j > 0 {
                assert(actors[j] == actors.drop_first()[j - 1]);
            }
        }
    }
}

/// Position of the first actor of a kind.
pub fn find_actor(actors: &Vec<Actor>, kind: ActorType) -> (r: Option<usize>)
    ensures
        r is Some == (actor_position(actors@, kind) < actors@.len()),
        r matches Some(i) ==> i == actor_position(actors@, kind),
{
    let mut i: usize = 0;
    while i < actors.len() && actors[i].identifier != kind
        invariant
            i <= actors@.len(),
            forall|j: int| 0 <= j < i ==> (#[trigger] actors@[j]).identifier != kind,
        decreases actors@.len() - i,
    {
        i = i + 1;
    }
    proof {
        lemma_actor_position(actors@, kind);
        let f = actor_position(actors@, kind);
        if f < i {
            assert(actors@[f].identifier == kind);
        }
        if i < f {
            assert(actors@[i as int].identifier != kind);
        }
    }
    if i < actors.len() {
        Some(i)
    } else {
        None
    }
}

/// All actors are the same at the same places; only the frames that their
/// sprites show may differ.
pub open spec fn same_cast(after: Seq<Actor>, before: Seq<Actor>) -> bool {
    &&& after.len() == before.len()
    &&& forall|i: int| 0 <= i < before.len() ==> (#[trigger] after[i]).same_body(&before[i])
}

/// The first actor of kind `kind` was set to the animation called `tag`,
/// where it has one that can be started; the other actors are as they were.
pub open spec fn set_to(after: Seq<Actor>, before: Seq<Actor>, kind: ActorType, tag: Seq<char>) -> bool {
    let at = actor_position(before, kind);
    &&& after.len() == before.len()
    &&& forall|i: int| 0 <= i < before.len() && i != at ==> #[trigger] after[i] == before[i]
    &&& at < before.len() ==> after[at].same_body(&before[at]) && after[at].sprite().playback()
        == before[at].sprite().start_at(before[at].sprite().playback(), tag)
}

/// The animation that shows a lever turned or not.
pub open spec fn lever_tag(turned: bool) -> Seq<char> {
    if turned {
        "right"@
    } else {
        "left"@
    }
}

/// The animation that shows a chest opened or not.
pub open spec fn chest_tag(opened: bool) -> Seq<char> {
    if opened {
        "open"@
    } else {
        "closed"@
    }
}

/// Actors that differ only in what their sprites play have their kinds
/// at the same positions.
pub proof fn lemma_same_positions(after: Seq<Actor>, before: Seq<Actor>, kind: ActorType)
    requires
        same_cast(after, before),
    ensures
        actor_position(after, kind) == actor_position(before, kind),
    decreases before.len(),
{
    if before.len() > 0 {
        assert(after[0].same_body(&before[0]));
        if before[0].identifier != kind {
            assert forall|i: int| 0 <= i < before.drop_first().len() implies (
            #[trigger] after.drop_first()[i]).same_body(&before.drop_first()[i]) by {
                assert(after[i + 1].same_body(&before[i + 1]));
            }
            lemma_same_positions(after.drop_first(), before.drop_first(), kind);
        }
    }
}

/// Shows the lever of a level in the position that it is in, and brings
/// the doors and spikes of the level to the state that goes with it.
pub fn sync_level_and_actors_with_lever(
    lever_turned: bool,
    level: &mut crate::levels::Level,
    actors: &mut Vec<Actor>,
)
    requires
        old(level).wf(),
        actors_wf(old(actors)@),
    ensures
        final(level).wf(),
        final(level).same_but_props(old(level)),
        forall|cell: int|
            0 <= cell < old(level).props().c_wid() * old(level).props().c_hei()
                ==> #[trigger] cell_synced(
                final(level).props().tile_data(),
                old(level).props().tile_data(),
                cell,
                lever_turned,
            ),
        same_cast(final(actors)@, old(actors)@),
        set_to(final(actors)@, old(actors)@, ActorType::Lever, lever_tag(lever_turned)),
{
    match find_actor(actors, ActorType::Lever) {
        Some(lever) => {
            let _ = actors[lever].start_animation(
                if lever_turned {
                    "right"
                } else {
                    "left"
                },
            );
            proof {
                assert forall|i: int| 0 <= i < old(actors)@.len() implies (
                #[trigger] actors@[i]).same_body(&old(actors)@[i]) by {
                    if i != lever {
                        assert(actors@[i] == old(actors)@[i]);
                    }
                }
            }
        },
        None => {},
    }
    level.sync_props_with_lever(lever_turned);
}

/// Why a game cannot be set up.
#[derive(Clone, Copy, Debug, PartialEq, Eq, Structural)]
pub enum SetupError {
    /// The images of the windows do not fit together.
    BadWindowTextures,
    /// A level of the world is unsound.
    BadLevels,
    /// The level in which the game starts cannot be had.
    Level(LevelError),
    /// The player has no usable sprite sheet.
    MissingPlayerSprite,
}

/// Name of the level in which the game starts.
pub open spec fn start_level() -> Seq<char> {
    "Start"@
}

/// Name of the image of the player's sprite.
pub open spec fn player_image() -> Seq<char> {
    "coric.png"@
}

/// Why no game can be set up with the given images and levels, if none
/// can: what is looked at first counts.
pub open spec fn setup_fault(res: &Resources, levels: &LevelSet) -> Option<SetupError> {
    if !res.window_textures.wf() {
        Some(SetupError::BadWindowTextures)
    } else if !levels.wf() {
        Some(SetupError::BadLevels)
    } else if levels.build_fault(res, levels.by_identifier(start_level())) is Some {
        Some(SetupError::Level(levels.build_fault(res, levels.by_identifier(start_level()))->0))
    } else if !res.sprite_sheet_usable(player_image()) {
        Some(SetupError::MissingPlayerSprite)
    } else {
        None
    }
}

impl ScriptContext {
    pub open spec fn wf(&self) -> bool {
        &&& self.modes.wf()
        &&& self.mctx.wf()
        &&& self.levels.wf()
    }

    /// The state at the start of a new game: the player stands in the
    /// level called "Start", on the tile (6, 3), facing south, before the
    /// actors of that level and an empty stack of modes. The random
    /// numbers come from `seed`, and the first of them tells the steps to
    /// the first encounter, 20 to 50. The volumes come from the options;
    /// progress, keyboard and fade are new.
    pub open spec fn fresh(
        &self,
        res: &Resources,
        levels: &LevelSet,
        seed: u64,
        opts: SavedOptions,
    ) -> bool {
        let drawn = crate::random::sample(
            crate::random::RngState::from_seed(seed),
            31,
            crate::random::MAX_DRAWS as nat,
        );
        let player = self.mctx.actors@[0];
        let sheet = res.sheet_named(player_image());
        &&& self.modes@.len() == 0
        &&& self.levels == *levels
        &&& self.mctx.res == *res
        &&& self.mctx.input.idle()
        &&& self.mctx.audio@ == crate::audio::Audio::spec_new(opts.music_volume, opts.sound_volume)
        &&& self.mctx.rng@ == drawn.1
        &&& self.mctx.encounter_steps == 20 + drawn.0
        &&& self.mctx.progress.fresh()
        &&& self.mctx.fade.clear()
        &&& self.mctx.options_to_save is None
        &&& 0 <= levels.by_identifier(start_level()) < levels.levels@.len()
        &&& self.mctx.actors@.len() >= 1
        &&& built_from(
            res,
            &self.mctx.level,
            self.mctx.actors@.skip(1),
            &levels.levels@[levels.by_identifier(start_level())],
        )
        &&& player.identifier == ActorType::Player
        &&& player.grid_x == 6 && player.grid_y == 3 && player.offset_x == 0 && player.offset_y == 0
        &&& player.face_dir == Direction::South && player.visible && player.chest_type is None
        &&& player.sprite().made_of(&sheet)
        &&& player.sprite().playback() == player.sprite().start_at(
            crate::sprite::Playback { tag: 0, frame: 0, t: 0, forward: true },
            "face_s"@,
        )
    }

    /// The state at the start of a new game: the player stands in the
    /// level called "Start", on the tile (6, 3), facing south, before an
    /// empty stack of modes. The random numbers come from `seed`, and the
    /// volumes from the options.
    pub fn new(res: Resources, levels: LevelSet, seed: u64, opts: SavedOptions) -> (r: Result<
        ScriptContext,
        SetupError,
    >)
        ensures
            r is Ok == (setup_fault(&res, &levels) is None),
            r matches Err(e) ==> setup_fault(&res, &levels) == Some(e),
            r matches Ok(sctx) ==> {
                &&& sctx.wf()
                &&& sctx.modes@.len() == 0
                &&& sctx.levels == levels
                &&& sctx.mctx.res == res
                &&& sctx.mctx.level.identifier@ == start_level()
                &&& sctx.mctx.actors@[0].identifier == ActorType::Player
                &&& sctx.mctx.actors@[0].grid_x == 6
                &&& sctx.mctx.actors@[0].grid_y == 3
                &&& sctx.mctx.actors@[0].offset_x == 0
                &&& sctx.mctx.actors@[0].offset_y == 0
                &&& sctx.mctx.options_to_save is None
                &&& sctx.mctx.audio@ == crate::audio::Audio::spec_new(
                    opts.music_volume,
                    opts.sound_volume,
                )
                &&& sctx.fresh(&res, &levels, seed, opts)
            },
    {
        let t = &res.window_textures;
        if !(t.px_wid_left < t.v_edges.width && t.px_hei_top < t.h_edges.height && t.corners.width
            == t.v_edges.width && t.corners.height == t.h_edges.height) {
            return Err(SetupError::BadWindowTextures);
        }
        if !levels.check() {
            return Err(SetupError::BadLevels);
        }
        let (level, actors) = match levels.level_by_identifier(&res, "Start") {
            Ok(found) => found,
            Err(e) => {
                return Err(SetupError::Level(e));
            },
        };
        let mut actors = actors;
        let mut player = match res.sprite_sheet("coric.png") {
            Some(sheet) => match Actor::new(sheet, ActorType::Player, 6, 3) {
                Some(player) => player,
                None => {
                    return Err(SetupError::MissingPlayerSprite);
                },
            },
            None => {
                return Err(SetupError::MissingPlayerSprite);
            },
        };
        let _ = player.start_animation("face_s");
        let ghost others = actors@;
        actors.insert(0, player);
        proof {
            assert(actors@.skip(1) =~= others);
            crate::contexts::lemma_last_level_named(&levels, "Start"@);
            assert forall|i: int| 0 <= i < actors@.len() implies (#[trigger] actors@[i]).wf() by {
                if i > 0 {
                    assert(actors@[i] == others[i - 1]);
                }
            }
        }
        let mut rng = Rng::new(seed);
        let encounter_steps: i32 = 20 + rng.random(31) as i32;
        Ok(
            ScriptContext {
                modes: ModeStack::new(),
                mctx: ModeContext {
                    res,
                    input: Input::new(),
                    audio: Audio::new(opts.music_volume, opts.sound_volume),
                    rng,
                    progress: Progress::new(),
                    level,
                    actors,
                    fade: Fade::new(),
                    encounter_steps,
                    options_to_save: None,
                },
                levels,
            },
        )
    }

    /// The lever of the level that the player is in is turned.
    pub open spec fn lever_turned(&self) -> bool {
        name_position(self.mctx.progress.turned_levers@, self.mctx.level.identifier@)
            < self.mctx.progress.turned_levers@.len()
    }

    /// A fade of the screen to clear over `frames` frames, at least one,
    /// was started, and nothing else changed; on a clear screen there is
    /// nothing to fade.
    pub open spec fn fading_in(&self, before: &ScriptContext, frames: u16) -> bool {
        let color = before.mctx.fade.color();
        &&& *self == (ScriptContext {
            mctx: ModeContext { fade: self.mctx.fade, ..before.mctx },
            ..*before
        })
        &&& self.mctx.fade.color() == color
        &&& self.mctx.fade.start() == color
        &&& self.mctx.fade.frame() == 0
        &&& if color[3] > 0 {
            self.mctx.fade.target() == color.update(3, 0i32) && self.mctx.fade.frames() == if frames
                > 0 {
                frames as int
            } else {
                1
            }
        } else {
            self.mctx.fade.target() == color && self.mctx.fade.frames() == 0
        }
    }

    /// A fade of the screen to opaque over `frames` frames, at least
    /// one, was started, and nothing else changed; on an opaque screen
    /// there is nothing to fade.
    pub open spec fn fading_out(&self, before: &ScriptContext, frames: u16) -> bool {
        let color = before.mctx.fade.color();
        &&& *self == (ScriptContext {
            mctx: ModeContext { fade: self.mctx.fade, ..before.mctx },
            ..*before
        })
        &&& self.mctx.fade.color() == color
        &&& self.mctx.fade.start() == color
        &&& self.mctx.fade.frame() == 0
        &&& if color[3] < crate::fade::CHANNEL_MAX {
            self.mctx.fade.target() == color.update(3, crate::fade::CHANNEL_MAX)
                && self.mctx.fade.frames() == if frames > 0 {
                frames as int
            } else {
                1
            }
        } else {
            self.mctx.fade.target() == color && self.mctx.fade.frames() == 0
        }
    }

    /// Starts a fade of the screen to clear over `frames` frames, at
    /// least one; a clear screen stays as it is.
    pub fn fade_in(&mut self, frames: u16)
        ensures
            final(self).fading_in(old(self), frames),
    {
        let color = self.mctx.fade.get();
        if color[3] > 0 {
            let target: [i32; 4] = [color[0], color[1], color[2], 0];
            self.mctx.fade.begin(
                if frames > 0 {
                    frames
                } else {
                    1
                },
                target,
            );
        } else {
            self.mctx.fade.begin(0, color);
        }
        proof {
            let before = old(self).mctx.fade.color();
            assert(self.mctx.fade.target() =~= if before[3] > 0 {
                before.update(3, 0i32)
            } else {
                before
            });
        }
    }

    /// Starts a fade of the screen to opaque over `frames` frames, at
    /// least one; an opaque screen stays as it is.
    pub fn fade_out(&mut self, frames: u16)
        ensures
            final(self).fading_out(old(self), frames),
    {
        let color = self.mctx.fade.get();
        if color[3] < crate::fade::CHANNEL_MAX {
            let target: [i32; 4] = [color[0], color[1], color[2], crate::fade::CHANNEL_MAX];
            self.mctx.fade.begin(
                if frames > 0 {
                    frames
                } else {
                    1
                },
                target,
            );
        } else {
            self.mctx.fade.begin(0, color);
        }
        proof {
            let before = old(self).mctx.fade.color();
            assert(self.mctx.fade.target() =~= if before[3] < crate::fade::CHANNEL_MAX {
                before.update(3, crate::fade::CHANNEL_MAX)
            } else {
                before
            });
        }
    }

    /// One step of the fade in progress.
    pub fn fade_step(&mut self) -> (r: Poll<()>)
        ensures
            *final(self) == (ScriptContext {
                mctx: ModeContext { fade: final(self).mctx.fade, ..old(self).mctx },
                ..*old(self)
            }),
            r is Pending == (old(self).mctx.fade.frame() < old(self).mctx.fade.frames()),
            r is Pending ==> final(self).mctx.fade.frame() == old(self).mctx.fade.frame() + 1,
            final(self).mctx.fade.frames() == old(self).mctx.fade.frames(),
            r is Ready ==> final(self).mctx.fade == old(self).mctx.fade,
            final(self).mctx.fade.start() == old(self).mctx.fade.start(),
            final(self).mctx.fade.target() == old(self).mctx.fade.target(),
            r is Pending ==> final(self).mctx.fade.color().len() == 4 && forall|i: int|
                0 <= i < 4 ==> #[trigger] final(self).mctx.fade.color()[i] == crate::fade::blend(
                    old(self).mctx.fade.start()[i],
                    old(self).mctx.fade.target()[i],
                    old(self).mctx.fade.frame() + 1,
                    old(self).mctx.fade.frames(),
                ),
    {
        self.mctx.fade.fade_step()
    }

    /// The actors of the level called `name` as the player's progress has
    /// left them: the chest is shown open where the player has opened it,
    /// the lever turned where the player has turned it, and the others
    /// are as they were.
    pub open spec fn cast_left(&self, after: Seq<Actor>, before: Seq<Actor>, name: Seq<char>) -> bool {
        let chest = actor_position(before, ActorType::Chest);
        let lever = actor_position(before, ActorType::Lever);
        let opened = chest_tag(name_listed(self.mctx.progress.collected_chests@, name));
        let turned = lever_tag(name_listed(self.mctx.progress.turned_levers@, name));
        &&& same_cast(after, before)
        &&& forall|i: int|
            0 <= i < before.len() && i != chest && i != lever ==> #[trigger] after[i] == before[i]
        &&& chest < before.len() ==> after[chest].sprite().playback()
            == before[chest].sprite().start_at(before[chest].sprite().playback(), opened)
        &&& lever < before.len() ==> after[lever].sprite().playback()
            == before[lever].sprite().start_at(before[lever].sprite().playback(), turned)
    }

    /// Level and actors are what `fresh` and `cast` are once they were
    /// brought to the state in which the player's progress has left them.
    pub open spec fn left_as(
        &self,
        level: &crate::levels::Level,
        actors: Seq<Actor>,
        fresh: &crate::levels::Level,
        cast: Seq<Actor>,
    ) -> bool {
        &&& level.wf()
        &&& actors_wf(actors)
        &&& level.same_but_props(fresh)
        &&& forall|cell: int|
            0 <= cell < fresh.props().c_wid() * fresh.props().c_hei() ==> #[trigger] cell_synced(
                level.props().tile_data(),
                fresh.props().tile_data(),
                cell,
                name_listed(self.mctx.progress.turned_levers@, fresh.identifier@),
            )
        &&& self.cast_left(actors, cast, fresh.identifier@)
    }

    /// Level and actors are what an entry of the world stands for, in
    /// the state in which the player's progress has left them.
    pub open spec fn made_of(
        &self,
        level: &crate::levels::Level,
        actors: Seq<Actor>,
        entry: &crate::levels::LevelEntry,
    ) -> bool {
        exists|fresh: crate::levels::Level, cast: Seq<Actor>| #[trigger]
            built_from(&self.mctx.res, &fresh, cast, entry) && self.left_as(
                level,
                actors,
                &fresh,
                cast,
            )
    }

    /// Shows the chest of a level open where the player has opened it,
    /// and brings the level to the state that goes with its lever.
    fn prepare_level_and_actors(&self, level: &mut crate::levels::Level, actors: &mut Vec<Actor>)
        requires
            old(level).wf(),
            actors_wf(old(actors)@),
        ensures
            final(level).wf(),
            final(level).same_but_props(old(level)),
            same_cast(final(actors)@, old(actors)@),
            forall|cell: int|
                0 <= cell < old(level).props().c_wid() * old(level).props().c_hei()
                    ==> #[trigger] cell_synced(
                    final(level).props().tile_data(),
                    old(level).props().tile_data(),
                    cell,
                    name_listed(self.mctx.progress.turned_levers@, old(level).identifier@),
                ),
            self.cast_left(final(actors)@, old(actors)@, old(level).identifier@),
    {
        match find_actor(actors, ActorType::Chest) {
            Some(chest) => {
                let chest_opened = position_of(
                    &self.mctx.progress.collected_chests,
                    level.identifier.as_str(),
                ).is_some();
                let _ = actors[chest].start_animation(
                    if chest_opened {
                        "open"
                    } else {
                        "closed"
                    },
                );
                proof {
                    assert forall|i: int| 0 <= i < old(actors)@.len() implies (
                    #[trigger] actors@[i]).same_body(&old(actors)@[i]) by {
                        if i != chest {
                            assert(actors@[i] == old(actors)@[i]);
                        }
                    }
                }
            },
            None => {},
        }
        let ghost shown = actors@;
        let lever_turned = position_of(
            &self.mctx.progress.turned_levers,
            level.identifier.as_str(),
        ).is_some();
        sync_level_and_actors_with_lever(lever_turned, level, actors);
        proof {
            assert forall|i: int| 0 <= i < old(actors)@.len() implies (#[trigger] actors@[i]).same_body(
                &old(actors)@[i],
            ) by {
                assert(actors@[i].same_body(&shown[i]));
                assert(shown[i].same_body(&old(actors)@[i]));
            }
            let before = old(actors)@;
            let chest = actor_position(before, ActorType::Chest);
            let lever = actor_position(before, ActorType::Lever);
            lemma_actor_position(before, ActorType::Chest);
            lemma_actor_position(before, ActorType::Lever);
            assert(same_cast(shown, before)) by {
                assert forall|i: int| 0 <= i < before.len() implies (#[trigger] shown[i]).same_body(
                    &before[i],
                ) by {
                    if i != chest {
                        assert(shown[i] == before[i]);
                    }
                }
            }
            lemma_same_positions(shown, before, ActorType::Lever);
            assert forall|i: int| 0 <= i < before.len() && i != chest && i != lever implies
                #[trigger] actors@[i] == before[i] by {
                assert(actors@[i] == shown[i]);
                assert(shown[i] == before[i]);
            }
            if chest < before.len() {
                assert(chest != lever);
                assert(actors@[chest] == shown[chest]);
            }
            if lever < before.len() {
                assert(shown[lever] == before[lever]);
            }
        }
    }

    /// The level called `identifier` with its actors, as the player's
    /// progress has left it.
    pub fn level_by_identifier(&self, identifier: &str) -> (r: Result<
        (crate::levels::Level, Vec<Actor>),
        LevelError,
    >)
        requires
            self.wf(),
        ensures
            r is Ok == (self.levels.build_fault(
                &self.mctx.res,
                self.levels.by_identifier(identifier@),
            ) is None),
            r matches Err(e) ==> self.levels.build_fault(
                &self.mctx.res,
                self.levels.by_identifier(identifier@),
            ) == Some(e),
            r matches Ok((level, actors)) ==> {
                &&& level.wf()
                &&& actors_wf(actors@)
                &&& self.levels.by_identifier(identifier@) >= 0
                &&& level.identifier@ == identifier@
                &&& actors.len() == self.levels.levels@[self.levels.by_identifier(
                    identifier@,
                )].actors@.len()
                &&& self.made_of(
                    &level,
                    actors@,
                    &self.levels.levels@[self.levels.by_identifier(identifier@)],
                )
            },
    {
        match self.levels.level_by_identifier(&self.mctx.res, identifier) {
            Ok((level, actors)) => {
                let mut level = level;
                let mut actors = actors;
                proof {
                    lemma_last_level_named(&self.levels, identifier@);
                }
                let ghost fresh = level;
                let ghost cast = actors@;
                self.prepare_level_and_actors(&mut level, &mut actors);
                proof {
                    let entry = &self.levels.levels@[self.levels.by_identifier(identifier@)];
                    assert(built_from(&self.mctx.res, &fresh, cast, entry));
                    assert(self.left_as(&level, actors@, &fresh, cast));
                }
                Ok((level, actors))
            },
            Err(e) => Err(e),
        }
    }

    /// The level that the player enters with a step in direction `dir`,
    /// with its actors, as the player's progress has left it; `None`
    /// where no level lies that way.
    pub fn level_by_neighbour(&self, dir: Direction) -> (r: Result<
        Option<(crate::levels::Level, Vec<Actor>)>,
        LevelError,
    >)
        requires
            self.wf(),
        ensures
            r matches Ok(Some((level, actors))) ==> level.wf() && actors_wf(actors@),
            match self.levels.neighbour_index(
                self.mctx.level.neighbours@,
                self.player_world_x(),
                self.player_world_y(),
                dir,
            ) {
                Err(e) => r == Err::<Option<(crate::levels::Level, Vec<Actor>)>, LevelError>(e),
                Ok(None) => r matches Ok(None),
                Ok(Some(index)) => match self.levels.build_fault(&self.mctx.res, index) {
                    Some(e) => r == Err::<Option<(crate::levels::Level, Vec<Actor>)>, LevelError>(
                        e,
                    ),
                    None => r matches Ok(Some((level, actors))) && level.identifier@
                        == self.levels.levels@[index].level.identifier@ && actors.len()
                        == self.levels.levels@[index].actors@.len() && self.made_of(
                        &level,
                        actors@,
                        &self.levels.levels@[index],
                    ),
                },
            },
    {
        let x = crate::numeric::clamp_to_i32(
            self.mctx.level.px_world_x as i64 + self.mctx.actors[0].grid_x as i64 * 16,
        );
        let y = crate::numeric::clamp_to_i32(
            self.mctx.level.px_world_y as i64 + self.mctx.actors[0].grid_y as i64 * 16,
        );
        match self.levels.level_by_neighbour(
            &self.mctx.res,
            &self.mctx.level.neighbours,
            x,
            y,
            dir,
        ) {
            Ok(Some((level, actors))) => {
                let mut level = level;
                let mut actors = actors;
                let ghost fresh = level;
                let ghost cast = actors@;
                self.prepare_level_and_actors(&mut level, &mut actors);
                proof {
                    let index = self.levels.neighbour_index(
                        self.mctx.level.neighbours@,
                        self.player_world_x(),
                        self.player_world_y(),
                        dir,
                    )->Ok_0->0;
                    assert(built_from(&self.mctx.res, &fresh, cast, &self.levels.levels@[index]));
                    assert(self.left_as(&level, actors@, &fresh, cast));
                }
                Ok(Some((level, actors)))
            },
            Ok(None) => Ok(None),
            Err(e) => Err(e),
        }
    }

    /// The point of the world that the player stands on, along x.
    pub open spec fn player_world_x(&self) -> i32 {
        crate::numeric::clamp_i32(
            self.mctx.level.px_world_x + self.mctx.actors@[0].grid_x * TILE_SIZE,
        )
    }

    /// The point of the world that the player stands on, along y.
    pub open spec fn player_world_y(&self) -> i32 {
        crate::numeric::clamp_i32(
            self.mctx.level.px_world_y + self.mctx.actors@[0].grid_y * TILE_SIZE,
        )
    }

    pub fn lever_is_turned(&self) -> (b: bool)
        ensures
            b == self.lever_turned(),
    {
        position_of(&self.mctx.progress.turned_levers, self.mctx.level.identifier.as_str()).is_some()
    }

    /// The lever of the level was turned: a lever that was turned is
    /// off the list of turned levers at the first place where it stood,
    /// where the last lever of the list has taken its place; any other
    /// is at the end of the list. The gates of the level and the actors follow, and
    /// nothing else changed.
    pub open spec fn lever_toggled(&self, before: &ScriptContext) -> bool {
        &&& self.modes == before.modes
        &&& self.levels == before.levels
        &&& !before.lever_turned() ==> self.lever_turned()
        &&& before.lever_turned() ==> self.mctx.progress.turned_levers@
            == before.mctx.progress.turned_levers@.update(
            name_position(before.mctx.progress.turned_levers@, before.mctx.level.identifier@),
            before.mctx.progress.turned_levers@.last(),
        ).drop_last()
        &&& !before.lever_turned() ==> self.mctx.progress.turned_levers@.len()
            == before.mctx.progress.turned_levers@.len() + 1
            && self.mctx.progress.turned_levers@.drop_last() == before.mctx.progress.turned_levers@
            && self.mctx.progress.turned_levers@.last()@ == before.mctx.level.identifier@
        &&& self.mctx.level.same_but_props(&before.mctx.level)
        &&& forall|cell: int|
            0 <= cell < before.mctx.level.props().c_wid() * before.mctx.level.props().c_hei()
                ==> #[trigger] cell_synced(
                self.mctx.level.props().tile_data(),
                before.mctx.level.props().tile_data(),
                cell,
                self.lever_turned(),
            )
        &&& same_cast(self.mctx.actors@, before.mctx.actors@)
        &&& self.mctx.progress == (crate::progress::Progress {
            turned_levers: self.mctx.progress.turned_levers,
            ..before.mctx.progress
        })
        &&& self.mctx == (ModeContext {
            progress: self.mctx.progress,
            level: self.mctx.level,
            actors: self.mctx.actors,
            ..before.mctx
        })
    }

    /// Turns the lever of the level: a lever that was turned is turned
    /// back and taken off the list of turned levers, where the last lever
    /// of the list takes its place; any other is put at the end of the
    /// list. The level follows.
    pub fn toggle_lever(&mut self)
        requires
            old(self).wf(),
        ensures
            final(self).wf(),
            final(self).lever_toggled(old(self)),
    {
        let turned = position_of(
            &self.mctx.progress.turned_levers,
            self.mctx.level.identifier.as_str(),
        );
        match turned {
            Some(position) => {
                self.mctx.progress.turned_levers.swap_remove(position);
            },
            None => {
                self.mctx.progress.turned_levers.push(self.mctx.level.identifier.clone());
            },
        }
        let now = self.lever_is_turned();
        proof {
            let names = old(self).mctx.progress.turned_levers@;
            let name = old(self).mctx.level.identifier@;
            lemma_name_position(names, name);
            lemma_name_position(self.mctx.progress.turned_levers@, name);
            if turned is None {
                let after = self.mctx.progress.turned_levers@;
                assert(after[names.len() as int]@ == name);
                assert(after.drop_last() =~= names);
            }
        }
        sync_level_and_actors_with_lever(now, &mut self.mctx.level, &mut self.mctx.actors);
    }

    /// Puts gates on a tile of the level and on the tile to its right.
    pub fn place_gates(&mut self, tile_x: i32, tile_y: i32) -> (placed: bool)
        requires
            old(self).wf(),
        ensures
            final(self).wf(),
            final(self).modes == old(self).modes,
            final(self).levels == old(self).levels,
            final(self).mctx == (ModeContext { level: final(self).mctx.level, ..old(self).mctx }),
            final(self).mctx.level.same_but_props(&old(self).mctx.level),
            placed == (old(self).mctx.level.props().in_bounds(tile_x as int, tile_y as int) && old(self).mctx.level.props().in_bounds(tile_x + 1, tile_y as int)),
            !placed ==> final(self).mctx.level.props().tile_data() == old(self).mctx.level.props().tile_data(),
            placed ==> {
                let offset = 4 * (tile_y * old(self).mctx.level.props().c_wid() + tile_x);
                final(self).mctx.level.props().tile_data() == old(self).mctx.level.props().tile_data().update(offset, crate::levels::GATE_TILE.0).update(
                    offset + 1,
                    crate::levels::GATE_TILE.1,
                ).update(offset + 4, crate::levels::GATE_TILE.0).update(
                    offset + 5,
                    crate::levels::GATE_TILE.1,
                )
            },
    {
        self.mctx.level.place_gates(tile_x, tile_y)
    }

    /// Takes the top mode off the stack. That the stack holds a mode is
    /// asked of the caller.
    pub fn pop_mode(&mut self)
        requires
            old(self).modes@.len() > 0,
        ensures
            final(self).modes@ == old(self).modes@.drop_last(),
            final(self).mctx == old(self).mctx,
            final(self).levels == old(self).levels,
            old(self).wf() ==> final(self).wf(),
    {
        self.modes.pop();
    }

    /// Puts a battle against `enemy` on the stack, and reports whether the
    /// enemy has a sprite to show; without one nothing changes.
    pub fn push_battle_mode(&mut self, enemy: Enemy, boss_fight: bool) -> (pushed: bool)
        requires
            old(self).wf(),
        ensures
            final(self).wf(),
            final(self).mctx == old(self).mctx,
            final(self).levels == old(self).levels,
            pushed == old(self).mctx.res.sprite_sheet_usable(enemy.sprite_path@),
            !pushed ==> final(self).modes == old(self).modes,
            pushed ==> {
                &&& final(self).modes@.len() == old(self).modes@.len() + 1
                &&& final(self).modes@.drop_last() == old(self).modes@
                &&& final(self).modes@.last() matches Mode::Battle(b)
                &&& b.phase == BattlePhase::Start
                &&& b.enemy == enemy
                &&& b.boss_fight == boss_fight
                &&& b.follow_up is None
                &&& b.enemy_visible && !b.menu_visible && b.status_visible && !b.change_visible
                &&& b.fresh(
                    &old(self).mctx.res,
                    old(self).mctx.progress.max_hp,
                    old(self).mctx.progress.max_mp,
                )
            },
    {
        match Battle::new(
            &self.mctx.res,
            self.mctx.progress.max_hp,
            self.mctx.progress.max_mp,
            enemy,
            boss_fight,
        ) {
            Some(battle) => {
                self.modes.push(Mode::Battle(Box::new(battle)));
                assert(self.modes@.drop_last() =~= old(self).modes@);
                true
            },
            None => false,
        }
    }

    /// Puts the debug menu on the stack.
    pub fn push_debug_menu_mode(&mut self)
        requires
            old(self).wf(),
        ensures
            final(self).wf(),
            final(self).mctx == old(self).mctx,
            final(self).levels == old(self).levels,
            final(self).modes@.len() == old(self).modes@.len() + 1,
            final(self).modes@.drop_last() == old(self).modes@,
            final(self).modes@.last() matches Mode::DebugMenu(m) && m.phase == DebugMenuPhase::Start
                && m.window.placed(&old(self).mctx.res.window_textures, 83, 36, 154, 104)
                && m.text.written(&old(self).mctx.res.font, 97, 44, Seq::empty()) && m.cursor.written(
                &old(self).mctx.res.font,
                crate::modes::debug_menu::CURSOR_X,
                crate::modes::debug_menu::CURSOR_Y,
                seq![crate::text::CURSOR_CHAR],
            ),
    {
        self.modes.push(Mode::DebugMenu(Box::new(DebugMenu::new(&self.mctx.res))));
        assert(self.modes@.drop_last() =~= old(self).modes@);
    }

    /// Puts the main menu on the stack.
    pub fn push_main_menu_mode(&mut self)
        requires
            old(self).wf(),
        ensures
            final(self).wf(),
            final(self).mctx == old(self).mctx,
            final(self).levels == old(self).levels,
            final(self).modes@.len() == old(self).modes@.len() + 1,
            final(self).modes@.drop_last() == old(self).modes@,
            final(self).modes@.last() matches Mode::MainMenu(m) && m.phase == MainMenuPhase::Start
                && m.fresh(&old(self).mctx.res, &old(self).mctx.progress),
    {
        self.modes.push(
            Mode::MainMenu(Box::new(MainMenu::new(&self.mctx.res, &self.mctx.progress))),
        );
        assert(self.modes@.drop_last() =~= old(self).modes@);
    }

    /// Puts a text box that holds `s` on the stack.
    pub fn push_text_box_mode(&mut self, s: &str)
        requires
            old(self).wf(),
        ensures
            final(self).wf(),
            final(self).mctx == old(self).mctx,
            final(self).levels == old(self).levels,
            final(self).modes@.len() == old(self).modes@.len() + 1,
            final(self).modes@.drop_last() == old(self).modes@,
            final(self).modes@.last() matches Mode::TextBox(t) && t.phase == TextBoxPhase::Start
                && t.text.holds(s@, t.text.glyphs().len()) && t.window.placed(
                &old(self).mctx.res.window_textures,
                44,
                124,
                232,
                40,
            ) && t.text.written(&old(self).mctx.res.font, 52, 132, s@),
    {
        self.modes.push(Mode::TextBox(Box::new(TextBox::new(&self.mctx.res, s))));
        assert(self.modes@.drop_last() =~= old(self).modes@);
    }

    /// Puts free movement on the stack.
    pub fn push_walk_around_mode(&mut self)
        ensures
            final(self).mctx == old(self).mctx,
            final(self).levels == old(self).levels,
            final(self).modes@.len() == old(self).modes@.len() + 1,
            final(self).modes@.drop_last() == old(self).modes@,
            final(self).modes@.last() matches Mode::WalkAround(w) && w.phase == WalkPhase::Start,
            old(self).wf() ==> final(self).wf(),
    {
        self.modes.push(Mode::WalkAround(Box::new(WalkAround::new())));
        assert(self.modes@.drop_last() =~= old(self).modes@);
    }
}

/// The level found under a name has that name.
pub proof fn lemma_last_level_named(levels: &LevelSet, identifier: Seq<char>)
    ensures
        levels.by_identifier(identifier) >= 0 ==> levels.by_identifier(identifier)
            < levels.levels@.len() && levels.levels@[levels.by_identifier(
            identifier,
        )].level.identifier@ == identifier,
{
    crate::levels::lemma_last_level(levels.levels@, crate::levels::level_named(identifier));
}

} // verus!
