//! The whole game as the host sees it: it is told the time of each frame
//! and the keys that go down and up, and it gives what to draw and what
//! to play.
use vstd::prelude::*;
use crate::async_utils::Task;
use crate::audio::AudioCommand;
use crate::contexts::{ModeContext, ScriptContext, SetupError};
use crate::draw::{views, DrawCommand, DrawCommandView};
use crate::driver::{Driver, FrameReport};
use crate::fade::Rgba;
use crate::input::GameKey;
use crate::levels::LevelSet;
use crate::modes::stack_drawn;
use crate::resources::Resources;
use crate::saved_options::SavedOptions;
use crate::script::{script_main, Script, ScriptError, ScriptState};

verus! {

pub struct Game {
    driver: Driver,
    script: Script,
    sctx: ScriptContext,
}

impl Game {
    pub closed spec fn driver(&self) -> Driver {
        self.driver
    }

    pub closed spec fn script(&self) -> Script {
        self.script
    }

    pub closed spec fn sctx(&self) -> ScriptContext {
        self.sctx
    }

    /// What holds of the game between the calls of its host.
    pub open spec fn wf(&self) -> bool {
        &&& self.driver().wf()
        &&& self.driver().step() == crate::driver::FRAME_TIME
        &&& self.driver().max_steps() == crate::driver::MAX_FRAME_STEPS
        &&& self.script().holds(&self.sctx())
        &&& self.driver().finished() == (self.script().state == ScriptState::Finished)
    }

    /// The story has come to its end.
    pub open spec fn finished(&self) -> bool {
        self.script().state == ScriptState::Finished
    }

    /// A new game in a world of levels.
    pub fn new(res: Resources, levels: LevelSet, seed: u64, opts: SavedOptions) -> (r: Result<
        Game,
        SetupError,
    >)
        ensures
            r matches Ok(g) ==> {
                &&& g.wf()
                &&& !g.finished()
                &&& g.script().polls@ == 0
                &&& g.driver().last_time() is None
                &&& g.driver().time_bank() == 0
                &&& g.driver().step() == crate::driver::FRAME_TIME
                &&& g.driver().max_steps() == crate::driver::MAX_FRAME_STEPS
                &&& g.script().unstarted()
                &&& g.sctx().fresh(&res, &levels, seed, opts)
            },
            r is Ok == (crate::contexts::setup_fault(&res, &levels) is None),
            r matches Err(e) ==> crate::contexts::setup_fault(&res, &levels) == Some(e),
    {
        match ScriptContext::new(res, levels, seed, opts) {
            Ok(sctx) => Ok(Game { driver: Driver::for_game(), script: script_main(), sctx }),
            Err(e) => Err(e),
        }
    }

    /// Runs the frame at time `now`, in nanoseconds: a tick of the game
    /// for every sixtieth of a second that has passed, at most four. A
    /// frame without a tick changes nothing but the time that is kept, and
    /// once the story has come to its end no frame makes a tick. Each
    /// tick goes on from where the one before it left the story.
    pub fn update(&mut self, now: u64) -> (report: FrameReport<Result<(), ScriptError>>)
        requires
            old(self).wf(),
        ensures
            final(self).wf(),
            final(self).driver().last_time() == Some(now),
            final(self).script().polls@ == old(self).script().polls@ + report.polls,
            report.polls <= crate::driver::MAX_FRAME_STEPS,
            final(self).driver().time_bank() < crate::driver::FRAME_TIME,
            old(self).finished() ==> final(self).finished(),
            old(self).finished() ==> report.polls == 0 && report.output is None
                && final(self).driver().time_bank() == old(self).driver().time_bank(),
            report.polls == 0 ==> final(self).script() == old(self).script() && final(self).sctx()
                == old(self).sctx(),
            !old(self).finished() ==> report.polls <= old(self).driver().steps_due(now),
            !old(self).finished() ==> final(self).driver().time_bank() == old(self).driver().leftover(now),
            !old(self).finished() && !final(self).finished() ==> report.polls == old(self).driver().steps_due(now),
            final(self).finished() && !old(self).finished() ==> report.polls >= 1,
            (report.output is Some) == (final(self).finished() && !old(self).finished()),
            crate::driver::frame_polls(
                (old(self).script(), old(self).sctx()),
                (final(self).script(), final(self).sctx()),
                report.polls as nat,
                report.output,
            ),
    {
        self.driver.update(now, &mut self.script, &mut self.sctx)
    }

    /// The state that the story works on.
    pub fn context(&self) -> (sctx: &ScriptContext)
        ensures
            *sctx == self.sctx(),
    {
        &self.sctx
    }

    /// Where the story stands.
    pub fn script_state(&self) -> (state: ScriptState)
        ensures
            state == self.script().state,
    {
        self.script.state
    }

    pub fn is_finished(&self) -> (b: bool)
        requires
            self.wf(),
        ensures
            b == self.finished(),
    {
        self.driver.is_finished()
    }

    /// Notes that a keyboard key went down.
    pub fn key_down_event(&mut self, keycode: u16)
        requires
            old(self).wf(),
        ensures
            final(self).wf(),
            final(self).driver() == old(self).driver(),
            final(self).script() == old(self).script(),
            final(self).finished() == old(self).finished(),
            forall|key: GameKey|
                GameKey::bound_to(keycode) == Some(key) ==> final(self).sctx().mctx.input.key_down(
                    key,
                ) && final(self).sctx().mctx.input.key_pressed(key),
            final(self).sctx() == (ScriptContext {
                mctx: ModeContext { input: final(self).sctx().mctx.input, ..old(self).sctx().mctx },
                ..old(self).sctx()
            }),
            final(self).sctx().mctx.input.key_went_down(&old(self).sctx().mctx.input, keycode),
    {
        self.sctx.mctx.input.handle_key_down_event(keycode);
    }

    /// Notes that a keyboard key went up.
    pub fn key_up_event(&mut self, keycode: u16)
        requires
            old(self).wf(),
        ensures
            final(self).wf(),
            final(self).driver() == old(self).driver(),
            final(self).script() == old(self).script(),
            final(self).finished() == old(self).finished(),
            forall|key: GameKey|
                GameKey::bound_to(keycode) == Some(key) ==> !final(self).sctx().mctx.input.key_down(key),
            final(self).sctx() == (ScriptContext {
                mctx: ModeContext { input: final(self).sctx().mctx.input, ..old(self).sctx().mctx },
                ..old(self).sctx()
            }),
            final(self).sctx().mctx.input.key_went_up(&old(self).sctx().mctx.input, keycode),
    {
        self.sctx.mctx.input.handle_key_up_event(keycode);
    }

    /// Appends what the frame shows: every mode of the stack, bottom first.
    pub fn draw(&self, out: &mut Vec<DrawCommand>)
        requires
            self.wf(),
        ensures
            views(final(out)@) == views(old(out)@) + stack_drawn(
                self.sctx().modes@,
                &self.sctx().mctx,
            ),
    {
        self.sctx.modes.draw(&self.sctx.mctx, out);
    }

    /// The color that is laid over the frame.
    pub fn fade_color(&self) -> (rgba: Rgba)
        ensures
            rgba@ == self.sctx().mctx.fade.color(),
    {
        self.sctx.mctx.fade.get()
    }

    /// Hands over the commands for the sound device and forgets them.
    pub fn take_audio_commands(&mut self) -> (commands: Vec<AudioCommand>)
        requires
            old(self).wf(),
        ensures
            final(self).wf(),
            commands@ == old(self).sctx().mctx.audio.commands(),
            final(self).sctx().mctx.audio.commands() == Seq::<AudioCommand>::empty(),
            final(self).finished() == old(self).finished(),
            final(self).driver() == old(self).driver(),
            final(self).script() == old(self).script(),
            final(self).sctx() == (ScriptContext {
                mctx: ModeContext { audio: final(self).sctx().mctx.audio, ..old(self).sctx().mctx },
                ..old(self).sctx()
            }),
            final(self).sctx().mctx.audio@ == (crate::audio::AudioView {
                commands: Seq::empty(),
                ..old(self).sctx().mctx.audio@
            }),
    {
        self.sctx.mctx.audio.take_commands()
    }

    /// Hands over the options that are to be written to storage, if any,
    /// and forgets them.
    pub fn take_options_to_save(&mut self) -> (options: Option<SavedOptions>)
        requires
            old(self).wf(),
        ensures
            final(self).wf(),
            options == old(self).sctx().mctx.options_to_save,
            final(self).sctx().mctx.options_to_save is None,
            final(self).finished() == old(self).finished(),
            final(self).driver() == old(self).driver(),
            final(self).script() == old(self).script(),
            final(self).sctx() == (ScriptContext {
                mctx: ModeContext { options_to_save: None, ..old(self).sctx().mctx },
                ..old(self).sctx()
            }),
    {
        let options = self.sctx.mctx.options_to_save;
        self.sctx.mctx.options_to_save = None;
        options
    }
}

} // verus!
