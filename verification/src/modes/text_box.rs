//! A box of text at the bottom of the screen that is revealed character by
//! character and then waits to be confirmed.
use vstd::prelude::*;
use crate::async_utils::Poll;
use crate::audio::Sfx;
use crate::contexts::{lemma_sfx_commands, ModeContext};
use crate::draw::{views, DrawCommand, DrawCommandView};
use crate::input::GameKey;
use crate::resources::Resources;
use crate::text::{lay_out, Text};
use crate::window::Window;

verus! {

/// Where an update of a text box stands.
#[derive(Clone, Copy, Debug, PartialEq, Eq, Structural)]
pub enum TextBoxPhase {
    /// No update is in progress.
    Start,
    /// The text is being revealed.
    Revealing,
    /// All of the text is shown.
    Waiting,
}

pub struct TextBox {
    pub window: Window,
    pub text: Text,
    pub phase: TextBoxPhase,
}

#[derive(Clone, Copy, Debug, PartialEq, Eq, Structural)]
pub enum TextBoxEvent {
    Done,
}

impl TextBox {
    pub open spec fn wf(&self) -> bool {
        self.text.wf()
    }

    /// A text box that holds `s`.
    pub fn new(res: &Resources, s: &str) -> (t: TextBox)
        requires
            res.window_textures.wf(),
        ensures
            t.wf(),
            t.phase == TextBoxPhase::Start,
            t.window.placed(&res.window_textures, 44, 124, 232, 40),
            t.text.written(&res.font, 52, 132, s@),
    {
        TextBox {
            window: Window::new(&res.window_textures, 44, 124, 232, 40),
            text: Text::from_str(&res.font, 52, 132, s),
            phase: TextBoxPhase::Start,
        }
    }

    /// What [`TextBox::draw`] appends: the window, then the text.
    pub open spec fn drawn(&self) -> Seq<DrawCommandView> {
        self.window.drawn() + self.text.drawn()
    }

    pub fn draw(&self, out: &mut Vec<DrawCommand>)
        requires
            self.wf(),
        ensures
            views(final(out)@) == views(old(out)@) + self.drawn(),
    {
        self.window.draw(out);
        self.text.draw(out);
        assert(views(final(out)@) =~= views(old(out)@) + self.drawn());
    }

    /// Number of glyphs shown after the next step of revealing the text.
    pub open spec fn revealed_next(&self) -> nat {
        if self.phase == TextBoxPhase::Start {
            0
        } else if self.text.shown() < self.text.glyphs().len() {
            self.text.shown() + 1
        } else {
            self.text.shown()
        }
    }

    /// What one poll makes of a text box and its context.
    ///
    /// While the text is being revealed a poll shows one glyph more, the
    /// first poll none, and is pending. Once all is shown a poll looks
    /// at the keyboard: on confirm it plays the cursor sound and is ready,
    /// and a new update can start; else it is pending.
    pub open spec fn step(
        &self,
        before: &TextBox,
        ctx: &ModeContext,
        ctx_before: &ModeContext,
        r: Poll<TextBoxEvent>,
    ) -> bool {
        &&& self.wf()
        &&& self.window == before.window
        &&& self.text.same_text(&before.text)
        &&& if before.phase == TextBoxPhase::Waiting {
            &&& self.text.shown() == before.text.shown()
            &&& if ctx_before.input.key_pressed(GameKey::Confirm) {
                &&& r == Poll::Ready(TextBoxEvent::Done)
                &&& self.phase == TextBoxPhase::Start
                &&& ctx.played(ctx_before, seq![Sfx::Cursor])
            } else {
                &&& r is Pending
                &&& self.phase == TextBoxPhase::Waiting
                &&& *ctx == *ctx_before
            }
        } else {
            &&& self.text.shown() == before.revealed_next()
            &&& r is Pending
            &&& self.phase == if self.text.shown() == self.text.glyphs().len() {
                TextBoxPhase::Waiting
            } else {
                TextBoxPhase::Revealing
            }
            &&& *ctx == *ctx_before
        }
    }

    /// Runs the text box up to its next suspension point or to its end.
    pub fn update(&mut self, mctx: &mut ModeContext) -> (r: Poll<TextBoxEvent>)
        requires
            old(self).wf(),
            old(mctx).audio.wf(),
        ensures
            final(self).step(old(self), final(mctx), old(mctx), r),
            final(mctx).audio.wf(),
    {
        match self.phase {
            TextBoxPhase::Waiting => {
                if mctx.input.is_key_pressed(GameKey::Confirm) {
                    mctx.audio.play_sfx(Sfx::Cursor);
                    proof {
                        lemma_sfx_commands(&old(mctx).audio, Sfx::Cursor);
                    }
                    self.phase = TextBoxPhase::Start;
                    Poll::Ready(TextBoxEvent::Done)
                } else {
                    Poll::Pending
                }
            },
            _ => {
                let mut started = self.phase == TextBoxPhase::Revealing;
                match self.text.reveal_step(&mut started) {
                    Poll::Ready(_) => {
                        self.phase = TextBoxPhase::Waiting;
                    },
                    Poll::Pending => {
                        self.phase = TextBoxPhase::Revealing;
                    },
                }
                Poll::Pending
            },
        }
    }
}

/// A text box that is polled while no key is pressed shows all of its text
/// after one poll more than it has glyphs, and then stays as it is.
pub proof fn lemma_reveal_takes_one_poll_a_glyph(shown: nat, glyphs: nat, polls: nat)
    requires
        shown <= glyphs,
    ensures
        shown_after(shown, glyphs, polls) == if shown + polls <= glyphs {
            shown + polls
        } else {
            glyphs
        },
    decreases polls,
{
    if polls > 0 {
        lemma_reveal_takes_one_poll_a_glyph(shown, glyphs, (polls - 1) as nat);
    }
}

/// Number of glyphs shown after `polls` polls of revealing a text of
/// `glyphs` glyphs, of which `shown` are shown.
pub open spec fn shown_after(shown: nat, glyphs: nat, polls: nat) -> nat
    decreases polls,
{
    if polls == 0 {
        shown
    } else {
        let before = shown_after(shown, glyphs, (polls - 1) as nat);
        if before < glyphs {
            before + 1
        } else {
            before
        }
    }
}

} // verus!
