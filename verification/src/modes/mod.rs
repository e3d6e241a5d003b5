//! The screens of the game and the stack that holds the active ones.
//!
//! Every screen can draw itself and can be updated: an update runs the
//! screen up to its next suspension point and reports pending, or up to the
//! end of its job and reports the event that ends it. The stack draws all
//! of its screens, bottom first, and updates only the top one.
pub mod battle;
pub mod credits;
pub mod debug_menu;
pub mod ending;
pub mod intro;
pub mod main_menu;
pub mod menu;
pub mod options;
pub mod text_box;
pub mod title;
pub mod walk_around;
pub mod yes_no_prompt;

use vstd::prelude::*;
use crate::async_utils::Poll;
use crate::contexts::ModeContext;
use crate::draw::{views, DrawCommand, DrawCommandView};
use crate::modes::battle::{Battle, BattleEvent};
use crate::modes::credits::{Credits, CreditsEvent};
use crate::modes::debug_menu::{DebugMenu, DebugMenuEvent};
use crate::modes::ending::{Ending, EndingEvent};
use crate::modes::intro::{Intro, IntroEvent};
use crate::modes::main_menu::{MainMenu, MainMenuEvent};
use crate::modes::options::{Options, OptionsEvent};
use crate::modes::text_box::{TextBox, TextBoxEvent};
use crate::modes::title::{Title, TitleEvent};
use crate::modes::walk_around::{WalkAround, WalkAroundEvent};
use crate::modes::yes_no_prompt::{YesNoPrompt, YesNoPromptEvent};

verus! {

pub enum Mode {
    Battle(Box<Battle>),
    Credits(Box<Credits>),
    DebugMenu(Box<DebugMenu>),
    Ending(Box<Ending>),
    Intro(Box<Intro>),
    MainMenu(Box<MainMenu>),
    Options(Box<Options>),
    TextBox(Box<TextBox>),
    Title(Box<Title>),
    WalkAround(Box<WalkAround>),
    YesNoPrompt(Box<YesNoPrompt>),
}

/// The kinds of mode.
#[derive(Clone, Copy, Debug, PartialEq, Eq, Structural)]
pub enum ModeKind {
    Battle,
    Credits,
    DebugMenu,
    Ending,
    Intro,
    MainMenu,
    Options,
    TextBox,
    Title,
    WalkAround,
    YesNoPrompt,
}

/// Why the mode stack turned a request down.
#[derive(Clone, Copy, Debug, PartialEq, Eq, Structural)]
pub enum ModeStackError {
    /// The stack holds no mode.
    Empty,
    /// The top of the stack is a mode of another kind than the one asked for.
    WrongMode { expected: ModeKind, found: ModeKind },
}

pub struct ModeStack {
    pub modes: Vec<Mode>,
}

impl Mode {
    pub open spec fn kind(&self) -> ModeKind {
        match self {
            Mode::Battle(_) => ModeKind::Battle,
            Mode::Credits(_) => ModeKind::Credits,
            Mode::DebugMenu(_) => ModeKind::DebugMenu,
            Mode::Ending(_) => ModeKind::Ending,
            Mode::Intro(_) => ModeKind::Intro,
            Mode::MainMenu(_) => ModeKind::MainMenu,
            Mode::Options(_) => ModeKind::Options,
            Mode::TextBox(_) => ModeKind::TextBox,
            Mode::Title(_) => ModeKind::Title,
            Mode::WalkAround(_) => ModeKind::WalkAround,
            Mode::YesNoPrompt(_) => ModeKind::YesNoPrompt,
        }
    }

    pub open spec fn wf(&self) -> bool {
        match self {
            Mode::Battle(m) => m.wf(),
            Mode::Credits(m) => m.wf(),
            Mode::DebugMenu(m) => m.wf(),
            Mode::Ending(m) => m.wf(),
            Mode::Intro(m) => m.wf(),
            Mode::MainMenu(m) => m.wf(),
            Mode::Options(m) => m.wf(),
            Mode::TextBox(m) => m.wf(),
            Mode::Title(m) => m.wf(),
            Mode::WalkAround(_) => true,
            Mode::YesNoPrompt(m) => m.wf(),
        }
    }

    /// What [`Mode::draw`] appends: what the mode inside draws.
    pub open spec fn drawn(&self, ctx: &ModeContext) -> Seq<DrawCommandView> {
        match self {
            Mode::Battle(m) => m.drawn(),
            Mode::Credits(m) => m.drawn(),
            Mode::DebugMenu(m) => m.drawn(),
            Mode::Ending(m) => m.drawn(),
            Mode::Intro(m) => m.drawn(),
            Mode::MainMenu(m) => m.drawn(),
            Mode::Options(m) => m.drawn(),
            Mode::TextBox(m) => m.drawn(),
            Mode::Title(m) => m.drawn(),
            Mode::WalkAround(_) => WalkAround::drawn(ctx),
            Mode::YesNoPrompt(m) => m.drawn(),
        }
    }

    pub fn draw(&self, ctx: &ModeContext, out: &mut Vec<DrawCommand>)
        requires
            self.wf(),
            ctx.wf(),
        ensures
            views(final(out)@) == views(old(out)@) + self.drawn(ctx),
    {
        match self {
            Mode::Battle(m) => m.draw(out),
            Mode::Credits(m) => m.draw(out),
            Mode::DebugMenu(m) => m.draw(out),
            Mode::Ending(m) => m.draw(out),
            Mode::Intro(m) => m.draw(out),
            Mode::MainMenu(m) => m.draw(out),
            Mode::Options(m) => m.draw(out),
            Mode::TextBox(m) => m.draw(out),
            Mode::Title(m) => m.draw(out),
            Mode::WalkAround(m) => m.draw(ctx, out),
            Mode::YesNoPrompt(m) => m.draw(out),
        }
    }

    pub fn get_kind(&self) -> (k: ModeKind)
        ensures
            k == self.kind(),
    {
        match self {
            Mode::Battle(_) => ModeKind::Battle,
            Mode::Credits(_) => ModeKind::Credits,
            Mode::DebugMenu(_) => ModeKind::DebugMenu,
            Mode::Ending(_) => ModeKind::Ending,
            Mode::Intro(_) => ModeKind::Intro,
            Mode::MainMenu(_) => ModeKind::MainMenu,
            Mode::Options(_) => ModeKind::Options,
            Mode::TextBox(_) => ModeKind::TextBox,
            Mode::Title(_) => ModeKind::Title,
            Mode::WalkAround(_) => ModeKind::WalkAround,
            Mode::YesNoPrompt(_) => ModeKind::YesNoPrompt,
        }
    }
}

/// What drawing the modes of a stack appends: what the first mode draws,
/// then what the second draws, and so on to the last, the top.
pub open spec fn stack_drawn(modes: Seq<Mode>, ctx: &ModeContext) -> Seq<DrawCommandView>
    decreases modes.len(),
{
    if modes.len() == 0 {
        Seq::empty()
    } else {
        stack_drawn(modes.drop_last(), ctx) + modes.last().drawn(ctx)
    }
}

impl View for ModeStack {
    type V = Seq<Mode>;

    open spec fn view(&self) -> Seq<Mode> {
        self.modes@
    }
}

impl ModeStack {
    pub open spec fn wf(&self) -> bool {
        forall|i: int| 0 <= i < self@.len() ==> (#[trigger] self@[i]).wf()
    }

    /// The kind of the top mode, `None` for an empty stack.
    pub open spec fn top_kind(&self) -> Option<ModeKind> {
        if self@.len() == 0 {
            None
        } else {
            Some(self@.last().kind())
        }
    }

    /// The error that a request for a top mode of kind `expected` meets:
    /// none where the top is of that kind.
    pub open spec fn mismatch(&self, expected: ModeKind) -> Option<ModeStackError> {
        match self.top_kind() {
            None => Some(ModeStackError::Empty),
            Some(found) => if found == expected {
                None
            } else {
                Some(ModeStackError::WrongMode { expected, found })
            },
        }
    }

    /// Everything below the top is the same.
    pub open spec fn same_below_top(&self, before: &ModeStack) -> bool {
        &&& self@.len() == before@.len()
        &&& self@.len() > 0
        &&& self@.drop_last() == before@.drop_last()
    }

    /// Where everything below the top is the same, every mode below the top is the same.
    pub proof fn lemma_same_below_top(&self, before: &ModeStack, i: int)
        requires
            self.same_below_top(before),
            0 <= i < self@.len() - 1,
        ensures
            self@[i] == before@[i],
    {
        assert(self@[i] == self@.drop_last()[i]);
        assert(before@[i] == before@.drop_last()[i]);
    }

    pub fn new() -> (s: ModeStack)
        ensures
            s@ == Seq::<Mode>::empty(),
            s.wf(),
    {
        ModeStack { modes: Vec::new() }
    }

    /// Number of modes on the stack.
    pub fn len(&self) -> (n: usize)
        ensures
            n == self@.len(),
    {
        self.modes.len()
    }

    /// The kind of the top mode.
    pub fn top(&self) -> (k: Option<ModeKind>)
        ensures
            k == self.top_kind(),
    {
        let n = self.modes.len();
        if n == 0 {
            None
        } else {
            Some(self.modes[n - 1].get_kind())
        }
    }

    /// Checks that the top mode is of kind `expected`.
    pub fn expect_top(&self, expected: ModeKind) -> (r: Result<(), ModeStackError>)
        ensures
            r is Ok == (self.mismatch(expected) is None),
            r matches Err(e) ==> self.mismatch(expected) == Some(e),
    {
        match self.top() {
            None => Err(ModeStackError::Empty),
            Some(found) => if found == expected {
                Ok(())
            } else {
                Err(ModeStackError::WrongMode { expected, found })
            },
        }
    }

    /// Appends what every mode of the stack draws, bottom first.
    pub fn draw(&self, ctx: &ModeContext, out: &mut Vec<DrawCommand>)
        requires
            self.wf(),
            ctx.wf(),
        ensures
            views(final(out)@) == views(old(out)@) + stack_drawn(self@, ctx),
    {
        let mut i: usize = 0;
        assert(views(out@) + stack_drawn(self@.take(0), ctx) =~= views(out@));
        while i < self.modes.len()
            invariant
                i <= self@.len(),
                self.wf(),
                ctx.wf(),
                views(out@) == views(old(out)@) + stack_drawn(self@.take(i as int), ctx),
            decreases self@.len() - i,
        {
            self.modes[i].draw(ctx, out);
            proof {
                let next = self@.take(i + 1);
                assert(next.drop_last() =~= self@.take(i as int));
                assert(next.last() == self@[i as int]);
                assert(views(out@) =~= views(old(out)@) + stack_drawn(next, ctx));
            }
            i = i + 1;
        }
        assert(self@.take(self@.len() as int) =~= self@);
    }

    /// Takes the top mode off the stack. That the stack holds a mode is
    /// asked of the caller.
    pub fn pop(&mut self)
        requires
            old(self)@.len() > 0,
        ensures
            final(self)@ == old(self)@.drop_last(),
            old(self).wf() ==> final(self).wf(),
    {
        match self.modes.pop() {
            Some(_) => {},
            None => unreached(),
        }
    }

    /// Takes the top mode off the stack where there is one. An empty
    /// stack is left as it is and reported as an error.
    pub fn try_pop(&mut self) -> (r: Result<(), ModeStackError>)
        ensures
            r is Ok == (old(self)@.len() > 0),
            r is Ok ==> final(self)@ == old(self)@.drop_last(),
            r is Err ==> r == Err::<(), ModeStackError>(ModeStackError::Empty) && *final(self)
                == *old(self),
            old(self).wf() ==> final(self).wf(),
    {
        if self.modes.len() == 0 {
            return Err(ModeStackError::Empty);
        }
        self.pop();
        Ok(())
    }

    /// Puts a mode on top of the stack.
    pub fn push(&mut self, mode: Mode)
        ensures
            final(self)@ == old(self)@.push(mode),
            old(self).wf() && mode.wf() ==> final(self).wf(),
    {
        self.modes.push(mode);
        proof {
            if old(self).wf() && mode.wf() {
                assert forall|i: int| 0 <= i < self@.len() implies (#[trigger] self@[i]).wf() by {
                    if i < old(self)@.len() {
                        assert(self@[i] == old(self)@[i]);
                    }
                }
            }
        }
    }

    /// Where only the top of a sound stack changed, and is sound, the stack is sound.
    proof fn lemma_top_changed(&self, before: &ModeStack)
        requires
            before.wf(),
            self@.len() == before@.len(),
            self@.len() > 0,
            forall|i: int| 0 <= i < self@.len() - 1 ==> self@[i] == before@[i],
            self@.last().wf(),
        ensures
            self.wf(),
            self.same_below_top(before),
    {
        assert(self@.drop_last() =~= before@.drop_last());
        assert forall|i: int| 0 <= i < self@.len() implies (#[trigger] self@[i]).wf() by {
            if i < self@.len() - 1 {
                assert(self@[i] == before@[i]);
            }
        }
    }

    /// Updates a battle on top of the stack: runs it up to its next
    /// suspension point or to its end. That the top of the stack is
    /// a battle is asked of the caller.
    pub fn update_battle_mode(&mut self, mctx: &mut ModeContext) -> (poll: Poll<BattleEvent>)
        requires
            old(self).wf(),
            old(mctx).wf(),
            old(self).mismatch(ModeKind::Battle) is None,
        ensures
            final(self).wf(),
            final(mctx).wf(),
            final(self).same_below_top(old(self)),
            old(self)@.last() matches Mode::Battle(before) && final(self)@.last() matches Mode::Battle(
                after,
            ) && after.step(&*before, final(mctx), old(mctx), poll) && Battle::only_progress(final(mctx), old(mctx)),
    {
        let n = self.modes.len();
        match &mut self.modes[n - 1] {
            Mode::Battle(m) => {
                let poll = m.update(mctx);
                proof {
                    self.lemma_top_changed(old(self));
                }
                poll
            },
            _ => unreached(),
        }
    }

    /// Updates a battle on top of the stack where the top is one. Where
    /// the top is a mode of another kind, or the stack is empty, nothing
    /// is touched, and the error tells what was found.
    pub fn try_update_battle_mode(&mut self, mctx: &mut ModeContext) -> (r: Result<
        Poll<BattleEvent>,
        ModeStackError,
    >)
        requires
            old(self).wf(),
            old(mctx).wf(),
        ensures
            final(self).wf(),
            final(mctx).wf(),
            r is Ok == (old(self).mismatch(ModeKind::Battle) is None),
            r matches Err(e) ==> old(self).mismatch(ModeKind::Battle) == Some(e) && *final(self)
                == *old(self) && *final(mctx) == *old(mctx),
            r matches Ok(poll) ==> {
                &&& final(self).same_below_top(old(self))
                &&& old(self)@.last() matches Mode::Battle(before)
                &&& final(self)@.last() matches Mode::Battle(after)
                &&& after.step(&*before, final(mctx), old(mctx), poll)
                &&& Battle::only_progress(final(mctx), old(mctx))
            },
    {
        match self.expect_top(ModeKind::Battle) {
            Err(e) => Err(e),
            Ok(()) => Ok(self.update_battle_mode(mctx)),
        }
    }

    /// Updates the credits on top of the stack: runs it up to its next
    /// suspension point or to its end. That the top of the stack is
    /// the credits is asked of the caller.
    pub fn update_credits_mode(&mut self, mctx: &mut ModeContext) -> (poll: Poll<CreditsEvent>)
        requires
            old(self).wf(),
            old(mctx).wf(),
            old(self).mismatch(ModeKind::Credits) is None,
        ensures
            final(self).wf(),
            final(mctx).wf(),
            final(self).same_below_top(old(self)),
            old(self)@.last() matches Mode::Credits(before) && final(self)@.last() matches Mode::Credits(
                after,
            ) && after.step(&*before, final(mctx), old(mctx), poll),
    {
        let n = self.modes.len();
        match &mut self.modes[n - 1] {
            Mode::Credits(m) => {
                let poll = m.update(mctx);
                proof {
                    self.lemma_top_changed(old(self));
                }
                poll
            },
            _ => unreached(),
        }
    }

    /// Updates the credits on top of the stack where the top is one. Where
    /// the top is a mode of another kind, or the stack is empty, nothing
    /// is touched, and the error tells what was found.
    pub fn try_update_credits_mode(&mut self, mctx: &mut ModeContext) -> (r: Result<
        Poll<CreditsEvent>,
        ModeStackError,
    >)
        requires
            old(self).wf(),
            old(mctx).wf(),
        ensures
            final(self).wf(),
            final(mctx).wf(),
            r is Ok == (old(self).mismatch(ModeKind::Credits) is None),
            r matches Err(e) ==> old(self).mismatch(ModeKind::Credits) == Some(e) && *final(self)
                == *old(self) && *final(mctx) == *old(mctx),
            r matches Ok(poll) ==> {
                &&& final(self).same_below_top(old(self))
                &&& old(self)@.last() matches Mode::Credits(before)
                &&& final(self)@.last() matches Mode::Credits(after)
                &&& after.step(&*before, final(mctx), old(mctx), poll)
            },
    {
        match self.expect_top(ModeKind::Credits) {
            Err(e) => Err(e),
            Ok(()) => Ok(self.update_credits_mode(mctx)),
        }
    }

    /// Updates the debug menu on top of the stack: runs it up to its next
    /// suspension point or to its end. That the top of the stack is
    /// the debug menu is asked of the caller.
    pub fn update_debug_menu_mode(&mut self, mctx: &mut ModeContext) -> (poll: Poll<DebugMenuEvent>)
        requires
            old(self).wf(),
            old(mctx).wf(),
            old(self).mismatch(ModeKind::DebugMenu) is None,
        ensures
            final(self).wf(),
            final(mctx).wf(),
            final(self).same_below_top(old(self)),
            old(self)@.last() matches Mode::DebugMenu(before) && final(self)@.last() matches Mode::DebugMenu(
                after,
            ) && after.step(&*before, final(mctx), old(mctx), poll),
    {
        let n = self.modes.len();
        match &mut self.modes[n - 1] {
            Mode::DebugMenu(m) => {
                let poll = m.update(mctx);
                proof {
                    self.lemma_top_changed(old(self));
                }
                poll
            },
            _ => unreached(),
        }
    }

    /// Updates the debug menu on top of the stack where the top is one. Where
    /// the top is a mode of another kind, or the stack is empty, nothing
    /// is touched, and the error tells what was found.
    pub fn try_update_debug_menu_mode(&mut self, mctx: &mut ModeContext) -> (r: Result<
        Poll<DebugMenuEvent>,
        ModeStackError,
    >)
        requires
            old(self).wf(),
            old(mctx).wf(),
        ensures
            final(self).wf(),
            final(mctx).wf(),
            r is Ok == (old(self).mismatch(ModeKind::DebugMenu) is None),
            r matches Err(e) ==> old(self).mismatch(ModeKind::DebugMenu) == Some(e) && *final(self)
                == *old(self) && *final(mctx) == *old(mctx),
            r matches Ok(poll) ==> {
                &&& final(self).same_below_top(old(self))
                &&& old(self)@.last() matches Mode::DebugMenu(before)
                &&& final(self)@.last() matches Mode::DebugMenu(after)
                &&& after.step(&*before, final(mctx), old(mctx), poll)
            },
    {
        match self.expect_top(ModeKind::DebugMenu) {
            Err(e) => Err(e),
            Ok(()) => Ok(self.update_debug_menu_mode(mctx)),
        }
    }

    /// Updates the ending on top of the stack: runs it up to its next
    /// suspension point or to its end. That the top of the stack is
    /// the ending is asked of the caller.
    pub fn update_ending_mode(&mut self, mctx: &mut ModeContext) -> (poll: Poll<EndingEvent>)
        requires
            old(self).wf(),
            old(mctx).wf(),
            old(self).mismatch(ModeKind::Ending) is None,
        ensures
            final(self).wf(),
            final(mctx).wf(),
            final(self).same_below_top(old(self)),
            old(self)@.last() matches Mode::Ending(before) && final(self)@.last() matches Mode::Ending(
                after,
            ) && after.step(&*before, final(mctx), old(mctx), poll),
    {
        let n = self.modes.len();
        match &mut self.modes[n - 1] {
            Mode::Ending(m) => {
                let poll = m.update(mctx);
                proof {
                    self.lemma_top_changed(old(self));
                }
                poll
            },
            _ => unreached(),
        }
    }

    /// Updates the ending on top of the stack where the top is one. Where
    /// the top is a mode of another kind, or the stack is empty, nothing
    /// is touched, and the error tells what was found.
    pub fn try_update_ending_mode(&mut self, mctx: &mut ModeContext) -> (r: Result<
        Poll<EndingEvent>,
        ModeStackError,
    >)
        requires
            old(self).wf(),
            old(mctx).wf(),
        ensures
            final(self).wf(),
            final(mctx).wf(),
            r is Ok == (old(self).mismatch(ModeKind::Ending) is None),
            r matches Err(e) ==> old(self).mismatch(ModeKind::Ending) == Some(e) && *final(self)
                == *old(self) && *final(mctx) == *old(mctx),
            r matches Ok(poll) ==> {
                &&& final(self).same_below_top(old(self))
                &&& old(self)@.last() matches Mode::Ending(before)
                &&& final(self)@.last() matches Mode::Ending(after)
                &&& after.step(&*before, final(mctx), old(mctx), poll)
            },
    {
        match self.expect_top(ModeKind::Ending) {
            Err(e) => Err(e),
            Ok(()) => Ok(self.update_ending_mode(mctx)),
        }
    }

    /// Updates the opening on top of the stack: runs it up to its next
    /// suspension point or to its end. That the top of the stack is
    /// the opening is asked of the caller.
    pub fn update_intro_mode(&mut self, mctx: &mut ModeContext) -> (poll: Poll<IntroEvent>)
        requires
            old(self).wf(),
            old(mctx).wf(),
            old(self).mismatch(ModeKind::Intro) is None,
        ensures
            final(self).wf(),
            final(mctx).wf(),
            final(self).same_below_top(old(self)),
            old(self)@.last() matches Mode::Intro(before) && final(self)@.last() matches Mode::Intro(
                after,
            ) && *after == *before && Intro::step(final(mctx), old(mctx), poll),
    {
        let n = self.modes.len();
        match &mut self.modes[n - 1] {
            Mode::Intro(m) => {
                let poll = m.update(mctx);
                proof {
                    self.lemma_top_changed(old(self));
                }
                poll
            },
            _ => unreached(),
        }
    }

    /// Updates the opening on top of the stack where the top is one. Where
    /// the top is a mode of another kind, or the stack is empty, nothing
    /// is touched, and the error tells what was found.
    pub fn try_update_intro_mode(&mut self, mctx: &mut ModeContext) -> (r: Result<
        Poll<IntroEvent>,
        ModeStackError,
    >)
        requires
            old(self).wf(),
            old(mctx).wf(),
        ensures
            final(self).wf(),
            final(mctx).wf(),
            r is Ok == (old(self).mismatch(ModeKind::Intro) is None),
            r matches Err(e) ==> old(self).mismatch(ModeKind::Intro) == Some(e) && *final(self)
                == *old(self) && *final(mctx) == *old(mctx),
            r matches Ok(poll) ==> {
                &&& final(self).same_below_top(old(self))
                &&& old(self)@.last() matches Mode::Intro(before)
                &&& final(self)@.last() matches Mode::Intro(after)
                &&& *after == *before
                &&& Intro::step(final(mctx), old(mctx), poll)
            },
    {
        match self.expect_top(ModeKind::Intro) {
            Err(e) => Err(e),
            Ok(()) => Ok(self.update_intro_mode(mctx)),
        }
    }

    /// Updates the main menu on top of the stack: runs it up to its next
    /// suspension point or to its end. That the top of the stack is
    /// the main menu is asked of the caller.
    pub fn update_main_menu_mode(&mut self, mctx: &mut ModeContext) -> (poll: Poll<MainMenuEvent>)
        requires
            old(self).wf(),
            old(mctx).wf(),
            old(self).mismatch(ModeKind::MainMenu) is None,
        ensures
            final(self).wf(),
            final(mctx).wf(),
            final(self).same_below_top(old(self)),
            old(self)@.last() matches Mode::MainMenu(before) && final(self)@.last() matches Mode::MainMenu(
                after,
            ) && after.step(&*before, final(mctx), old(mctx), poll),
    {
        let n = self.modes.len();
        match &mut self.modes[n - 1] {
            Mode::MainMenu(m) => {
                let poll = m.update(mctx);
                proof {
                    self.lemma_top_changed(old(self));
                }
                poll
            },
            _ => unreached(),
        }
    }

    /// Updates the main menu on top of the stack where the top is one. Where
    /// the top is a mode of another kind, or the stack is empty, nothing
    /// is touched, and the error tells what was found.
    pub fn try_update_main_menu_mode(&mut self, mctx: &mut ModeContext) -> (r: Result<
        Poll<MainMenuEvent>,
        ModeStackError,
    >)
        requires
            old(self).wf(),
            old(mctx).wf(),
        ensures
            final(self).wf(),
            final(mctx).wf(),
            r is Ok == (old(self).mismatch(ModeKind::MainMenu) is None),
            r matches Err(e) ==> old(self).mismatch(ModeKind::MainMenu) == Some(e) && *final(self)
                == *old(self) && *final(mctx) == *old(mctx),
            r matches Ok(poll) ==> {
                &&& final(self).same_below_top(old(self))
                &&& old(self)@.last() matches Mode::MainMenu(before)
                &&& final(self)@.last() matches Mode::MainMenu(after)
                &&& after.step(&*before, final(mctx), old(mctx), poll)
            },
    {
        match self.expect_top(ModeKind::MainMenu) {
            Err(e) => Err(e),
            Ok(()) => Ok(self.update_main_menu_mode(mctx)),
        }
    }

    /// Updates the options on top of the stack: runs it up to its next
    /// suspension point or to its end. That the top of the stack is
    /// the options is asked of the caller.
    pub fn update_options_mode(&mut self, mctx: &mut ModeContext) -> (poll: Poll<OptionsEvent>)
        requires
            old(self).wf(),
            old(mctx).wf(),
            old(self).mismatch(ModeKind::Options) is None,
        ensures
            final(self).wf(),
            final(mctx).wf(),
            final(self).same_below_top(old(self)),
            old(self)@.last() matches Mode::Options(before) && final(self)@.last() matches Mode::Options(
                after,
            ) && after.step(&*before, final(mctx), old(mctx), poll),
    {
        let n = self.modes.len();
        match &mut self.modes[n - 1] {
            Mode::Options(m) => {
                let poll = m.update(mctx);
                proof {
                    self.lemma_top_changed(old(self));
                }
                poll
            },
            _ => unreached(),
        }
    }

    /// Updates the options on top of the stack where the top is one. Where
    /// the top is a mode of another kind, or the stack is empty, nothing
    /// is touched, and the error tells what was found.
    pub fn try_update_options_mode(&mut self, mctx: &mut ModeContext) -> (r: Result<
        Poll<OptionsEvent>,
        ModeStackError,
    >)
        requires
            old(self).wf(),
            old(mctx).wf(),
        ensures
            final(self).wf(),
            final(mctx).wf(),
            r is Ok == (old(self).mismatch(ModeKind::Options) is None),
            r matches Err(e) ==> old(self).mismatch(ModeKind::Options) == Some(e) && *final(self)
                == *old(self) && *final(mctx) == *old(mctx),
            r matches Ok(poll) ==> {
                &&& final(self).same_below_top(old(self))
                &&& old(self)@.last() matches Mode::Options(before)
                &&& final(self)@.last() matches Mode::Options(after)
                &&& after.step(&*before, final(mctx), old(mctx), poll)
            },
    {
        match self.expect_top(ModeKind::Options) {
            Err(e) => Err(e),
            Ok(()) => Ok(self.update_options_mode(mctx)),
        }
    }

    /// Updates a text box on top of the stack: runs it up to its next
    /// suspension point or to its end. That the top of the stack is
    /// a text box is asked of the caller.
    pub fn update_text_box_mode(&mut self, mctx: &mut ModeContext) -> (poll: Poll<TextBoxEvent>)
        requires
            old(self).wf(),
            old(mctx).wf(),
            old(self).mismatch(ModeKind::TextBox) is None,
        ensures
            final(self).wf(),
            final(mctx).wf(),
            final(self).same_below_top(old(self)),
            old(self)@.last() matches Mode::TextBox(before) && final(self)@.last() matches Mode::TextBox(
                after,
            ) && after.step(&*before, final(mctx), old(mctx), poll),
    {
        let n = self.modes.len();
        match &mut self.modes[n - 1] {
            Mode::TextBox(m) => {
                let poll = m.update(mctx);
                proof {
                    self.lemma_top_changed(old(self));
                }
                poll
            },
            _ => unreached(),
        }
    }

    /// Updates a text box on top of the stack where the top is one. Where
    /// the top is a mode of another kind, or the stack is empty, nothing
    /// is touched, and the error tells what was found.
    pub fn try_update_text_box_mode(&mut self, mctx: &mut ModeContext) -> (r: Result<
        Poll<TextBoxEvent>,
        ModeStackError,
    >)
        requires
            old(self).wf(),
            old(mctx).wf(),
        ensures
            final(self).wf(),
            final(mctx).wf(),
            r is Ok == (old(self).mismatch(ModeKind::TextBox) is None),
            r matches Err(e) ==> old(self).mismatch(ModeKind::TextBox) == Some(e) && *final(self)
                == *old(self) && *final(mctx) == *old(mctx),
            r matches Ok(poll) ==> {
                &&& final(self).same_below_top(old(self))
                &&& old(self)@.last() matches Mode::TextBox(before)
                &&& final(self)@.last() matches Mode::TextBox(after)
                &&& after.step(&*before, final(mctx), old(mctx), poll)
            },
    {
        match self.expect_top(ModeKind::TextBox) {
            Err(e) => Err(e),
            Ok(()) => Ok(self.update_text_box_mode(mctx)),
        }
    }

    /// Updates the title screen on top of the stack: runs it up to its next
    /// suspension point or to its end. That the top of the stack is
    /// the title screen is asked of the caller.
    pub fn update_title_mode(&mut self, mctx: &mut ModeContext) -> (poll: Poll<TitleEvent>)
        requires
            old(self).wf(),
            old(mctx).wf(),
            old(self).mismatch(ModeKind::Title) is None,
        ensures
            final(self).wf(),
            final(mctx).wf(),
            final(self).same_below_top(old(self)),
            old(self)@.last() matches Mode::Title(before) && final(self)@.last() matches Mode::Title(
                after,
            ) && after.step(&*before, final(mctx), old(mctx), poll),
    {
        let n = self.modes.len();
        match &mut self.modes[n - 1] {
            Mode::Title(m) => {
                let poll = m.update(mctx);
                proof {
                    self.lemma_top_changed(old(self));
                }
                poll
            },
            _ => unreached(),
        }
    }

    /// Updates the title screen on top of the stack where the top is one. Where
    /// the top is a mode of another kind, or the stack is empty, nothing
    /// is touched, and the error tells what was found.
    pub fn try_update_title_mode(&mut self, mctx: &mut ModeContext) -> (r: Result<
        Poll<TitleEvent>,
        ModeStackError,
    >)
        requires
            old(self).wf(),
            old(mctx).wf(),
        ensures
            final(self).wf(),
            final(mctx).wf(),
            r is Ok == (old(self).mismatch(ModeKind::Title) is None),
            r matches Err(e) ==> old(self).mismatch(ModeKind::Title) == Some(e) && *final(self)
                == *old(self) && *final(mctx) == *old(mctx),
            r matches Ok(poll) ==> {
                &&& final(self).same_below_top(old(self))
                &&& old(self)@.last() matches Mode::Title(before)
                &&& final(self)@.last() matches Mode::Title(after)
                &&& after.step(&*before, final(mctx), old(mctx), poll)
            },
    {
        match self.expect_top(ModeKind::Title) {
            Err(e) => Err(e),
            Ok(()) => Ok(self.update_title_mode(mctx)),
        }
    }

    /// Updates free movement on top of the stack: runs it up to its next
    /// suspension point or to its end. That the top of the stack is
    /// free movement is asked of the caller.
    pub fn update_walk_around_mode(&mut self, mctx: &mut ModeContext) -> (poll: Poll<WalkAroundEvent>)
        requires
            old(self).wf(),
            old(mctx).wf(),
            old(self)@.len() > 0 ==> (old(self)@.last() matches Mode::WalkAround(m) ==> m.inv(
                old(mctx),
            )),
            old(self).mismatch(ModeKind::WalkAround) is None,
        ensures
            final(self).wf(),
            final(mctx).wf(),
            final(self).same_below_top(old(self)),
            old(self)@.last() matches Mode::WalkAround(before) && final(self)@.last() matches Mode::WalkAround(
                after,
            ) && after.step(&*before, final(mctx), old(mctx), poll) && after.inv(final(mctx)),
    {
        let n = self.modes.len();
        match &mut self.modes[n - 1] {
            Mode::WalkAround(m) => {
                let poll = m.update(mctx);
                proof {
                    self.lemma_top_changed(old(self));
                }
                poll
            },
            _ => unreached(),
        }
    }

    /// Updates free movement on top of the stack where the top is one. Where
    /// the top is a mode of another kind, or the stack is empty, nothing
    /// is touched, and the error tells what was found.
    pub fn try_update_walk_around_mode(&mut self, mctx: &mut ModeContext) -> (r: Result<
        Poll<WalkAroundEvent>,
        ModeStackError,
    >)
        requires
            old(self).wf(),
            old(mctx).wf(),
            old(self)@.len() > 0 ==> (old(self)@.last() matches Mode::WalkAround(m) ==> m.inv(
                old(mctx),
            )),
        ensures
            final(self).wf(),
            final(mctx).wf(),
            r is Ok == (old(self).mismatch(ModeKind::WalkAround) is None),
            r matches Err(e) ==> old(self).mismatch(ModeKind::WalkAround) == Some(e) && *final(self)
                == *old(self) && *final(mctx) == *old(mctx),
            r matches Ok(poll) ==> {
                &&& final(self).same_below_top(old(self))
                &&& old(self)@.last() matches Mode::WalkAround(before)
                &&& final(self)@.last() matches Mode::WalkAround(after)
                &&& after.step(&*before, final(mctx), old(mctx), poll)
                &&& after.inv(final(mctx))
            },
    {
        match self.expect_top(ModeKind::WalkAround) {
            Err(e) => Err(e),
            Ok(()) => Ok(self.update_walk_around_mode(mctx)),
        }
    }

    /// Updates a prompt on top of the stack: runs it up to its next
    /// suspension point or to its end. That the top of the stack is
    /// a prompt is asked of the caller.
    pub fn update_yes_no_prompt_mode(&mut self, mctx: &mut ModeContext) -> (poll: Poll<YesNoPromptEvent>)
        requires
            old(self).wf(),
            old(mctx).wf(),
            old(self).mismatch(ModeKind::YesNoPrompt) is None,
        ensures
            final(self).wf(),
            final(mctx).wf(),
            final(self).same_below_top(old(self)),
            old(self)@.last() matches Mode::YesNoPrompt(before) && final(self)@.last() matches Mode::YesNoPrompt(
                after,
            ) && after.step(&*before, final(mctx), old(mctx), poll),
    {
        let n = self.modes.len();
        match &mut self.modes[n - 1] {
            Mode::YesNoPrompt(m) => {
                let poll = m.update(mctx);
                proof {
                    self.lemma_top_changed(old(self));
                }
                poll
            },
            _ => unreached(),
        }
    }

    /// Updates a prompt on top of the stack where the top is one. Where
    /// the top is a mode of another kind, or the stack is empty, nothing
    /// is touched, and the error tells what was found.
    pub fn try_update_yes_no_prompt_mode(&mut self, mctx: &mut ModeContext) -> (r: Result<
        Poll<YesNoPromptEvent>,
        ModeStackError,
    >)
        requires
            old(self).wf(),
            old(mctx).wf(),
        ensures
            final(self).wf(),
            final(mctx).wf(),
            r is Ok == (old(self).mismatch(ModeKind::YesNoPrompt) is None),
            r matches Err(e) ==> old(self).mismatch(ModeKind::YesNoPrompt) == Some(e) && *final(self)
                == *old(self) && *final(mctx) == *old(mctx),
            r matches Ok(poll) ==> {
                &&& final(self).same_below_top(old(self))
                &&& old(self)@.last() matches Mode::YesNoPrompt(before)
                &&& final(self)@.last() matches Mode::YesNoPrompt(after)
                &&& after.step(&*before, final(mctx), old(mctx), poll)
            },
    {
        match self.expect_top(ModeKind::YesNoPrompt) {
            Err(e) => Err(e),
            Ok(()) => Ok(self.update_yes_no_prompt_mode(mctx)),
        }
    }
}

/// What changes a stack: putting a mode on top, or taking the top off.
pub enum StackOp {
    Push(Mode),
    Pop,
}

/// The stack `start` after the given changes, each made as `push` and
/// `try_pop` make it: taking from an empty stack is turned down and
/// changes nothing.
pub open spec fn stack_after(start: Seq<Mode>, ops: Seq<StackOp>) -> Seq<Mode>
    decreases ops.len(),
{
    if ops.len() == 0 {
        start
    } else {
        let before = stack_after(start, ops.drop_last());
        match ops.last() {
            StackOp::Push(mode) => before.push(mode),
            StackOp::Pop => if before.len() > 0 {
                before.drop_last()
            } else {
                before
            },
        }
    }
}

/// Number of `Push` among the changes.
pub open spec fn pushes(ops: Seq<StackOp>) -> nat
    decreases ops.len(),
{
    if ops.len() == 0 {
        0
    } else {
        pushes(ops.drop_last()) + if ops.last() is Push {
            1nat
        } else {
            0nat
        }
    }
}

/// Number of `Pop` among the changes that find a mode to take.
pub open spec fn pops_done(start: Seq<Mode>, ops: Seq<StackOp>) -> nat
    decreases ops.len(),
{
    if ops.len() == 0 {
        0
    } else {
        pops_done(start, ops.drop_last()) + if ops.last() is Pop && stack_after(
            start,
            ops.drop_last(),
        ).len() > 0 {
            1nat
        } else {
            0nat
        }
    }
}

/// Number of `Pop` among the changes that find the stack empty and are
/// turned down.
pub open spec fn pops_refused(start: Seq<Mode>, ops: Seq<StackOp>) -> nat
    decreases ops.len(),
{
    if ops.len() == 0 {
        0
    } else {
        pops_refused(start, ops.drop_last()) + if ops.last() is Pop && stack_after(
            start,
            ops.drop_last(),
        ).len() == 0 {
            1nat
        } else {
            0nat
        }
    }
}

/// After any sequence of pushes and pops the stack holds as many modes
/// as it held, plus the pushes, minus the pops that were not turned
/// down; and every change is a push, a pop that was made, or a pop that
/// was turned down.
pub proof fn lemma_height_is_pushes_minus_pops(start: Seq<Mode>, ops: Seq<StackOp>)
    ensures
        stack_after(start, ops).len() == start.len() + pushes(ops) - pops_done(start, ops),
        pops_done(start, ops) <= start.len() + pushes(ops),
        pushes(ops) + pops_done(start, ops) + pops_refused(start, ops) == ops.len(),
    decreases ops.len(),
{
    if ops.len() > 0 {
        lemma_height_is_pushes_minus_pops(start, ops.drop_last());
    }
}

/// A request for the top mode of one kind is met exactly where the stack
/// holds a mode and its top is of that kind. It is turned down as a
/// request to an empty stack exactly where the stack is empty, and else
/// with the kind that was found on top.
pub proof fn lemma_request_is_met_by_the_top_alone(stack: &ModeStack, kind: ModeKind)
    ensures
        stack.mismatch(kind) is None <==> stack@.len() > 0 && stack@.last().kind() == kind,
        stack.mismatch(kind) == Some(ModeStackError::Empty) <==> stack@.len() == 0,
        stack@.len() > 0 && stack@.last().kind() != kind ==> stack.mismatch(kind) == Some(
            ModeStackError::WrongMode { expected: kind, found: stack@.last().kind() },
        ),
{
}

/// Modes are drawn in the order in which they were pushed: drawing a
/// stack appends what the modes below any place of it draw, and then
/// what the modes from that place on draw.
pub proof fn lemma_drawn_in_push_order(below: Seq<Mode>, above: Seq<Mode>, ctx: &ModeContext)
    ensures
        stack_drawn(below + above, ctx) == stack_drawn(below, ctx) + stack_drawn(above, ctx),
    decreases above.len(),
{
    if above.len() == 0 {
        assert(below + above =~= below);
        assert(stack_drawn(below, ctx) + stack_drawn(above, ctx) =~= stack_drawn(below, ctx));
    } else {
        lemma_drawn_in_push_order(below, above.drop_last(), ctx);
        assert((below + above).drop_last() =~= below + above.drop_last());
        assert((below + above).last() == above.last());
        assert(stack_drawn(below + above, ctx) =~= stack_drawn(below, ctx) + stack_drawn(
            above,
            ctx,
        ));
    }
}

/// Drawing a stack with one mode more on top appends what was drawn
/// before and then what the new mode draws; drawing an empty stack
/// appends nothing.
pub proof fn lemma_top_is_drawn_last(modes: Seq<Mode>, top: Mode, ctx: &ModeContext)
    ensures
        stack_drawn(modes.push(top), ctx) == stack_drawn(modes, ctx) + top.drawn(ctx),
        stack_drawn(Seq::empty(), ctx) == Seq::<DrawCommandView>::empty(),
{
    assert(modes.push(top).drop_last() =~= modes);
}

} // verus!
