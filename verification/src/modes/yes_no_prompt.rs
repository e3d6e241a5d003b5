//! A question with two answers at the bottom of the screen.
use vstd::prelude::*;
use vstd::string::StringSliceAdditionalSpecFns;
use crate::async_utils::Poll;
use crate::audio::Sfx;
use crate::contexts::{lemma_sfx_commands, ModeContext};
use crate::draw::{views, DrawCommand, DrawCommandView};
use crate::input::GameKey;
use crate::modes::battle::cursor_str;
use crate::numeric::clamp_i32;
use crate::resources::Resources;
use crate::strings::{push_str, string_from_chars};
use crate::text::Text;
use crate::window::Window;

verus! {

pub const CURSOR_X: i32 = 52;

pub const CURSOR_Y: i32 = 148;

/// Where an update of a prompt stands.
#[derive(Clone, Copy, Debug, PartialEq, Eq, Structural)]
pub enum YesNoPhase {
    /// No update is in progress.
    Start,
    /// The question is being revealed.
    RevealText,
    /// The cursor is being revealed.
    RevealCursor,
    /// The prompt waits for the answer.
    Waiting,
}

pub struct YesNoPrompt {
    pub window: Window,
    pub text: Text,
    pub cursor: Text,
    /// The answer that the cursor is at: true for yes.
    pub choice: bool,
    /// Number of columns from the first answer to the second.
    pub no_x_diff: i32,
    pub phase: YesNoPhase,
}

#[derive(Clone, Copy, Debug, PartialEq, Eq, Structural)]
pub enum YesNoPromptEvent {
    Yes,
    No,
}

/// The text of a prompt: the question, and the answers below it.
pub open spec fn prompt_text(prompt: Seq<char>, yes_label: Seq<char>, no_label: Seq<char>) -> Seq<
    char,
> {
    prompt + "\n\n "@ + yes_label + "     "@ + no_label
}

/// Column of the cursor for an answer.
pub open spec fn cursor_x(choice: bool, no_x_diff: i32) -> i32 {
    if choice {
        CURSOR_X
    } else {
        clamp_i32(CURSOR_X + 6 * no_x_diff)
    }
}

impl YesNoPrompt {
    pub open spec fn wf(&self) -> bool {
        self.text.wf() && self.cursor.wf()
    }

    /// A prompt with the cursor at an answer. The second answer stands
    /// five columns behind the first, whose width is counted in bytes.
    pub fn new(res: &Resources, prompt: &str, yes_label: &str, no_label: &str, initial_choice: bool) -> (p:
        YesNoPrompt)
        requires
            res.window_textures.wf(),
        ensures
            p.wf(),
            p.phase == YesNoPhase::Start,
            p.choice == initial_choice,
            p.no_x_diff == clamp_i32(5 + yes_label.len() as int),
            p.window.placed(&res.window_textures, 44, 124, 232, 40),
            p.text.written(&res.font, 52, 132, prompt_text(prompt@, yes_label@, no_label@)),
            p.cursor.written(&res.font, 0, 0, seq![crate::text::CURSOR_CHAR]),
    {
        let columns = yes_label.len();
        let no_x_diff: i32 = if columns > (i32::MAX - 5) as usize {
            i32::MAX
        } else {
            5 + columns as i32
        };
        let mut out: Vec<char> = Vec::new();
        push_str(&mut out, prompt);
        push_str(&mut out, "\n\n ");
        push_str(&mut out, yes_label);
        push_str(&mut out, "     ");
        push_str(&mut out, no_label);
        let text = string_from_chars(&out);
        YesNoPrompt {
            window: Window::new(&res.window_textures, 44, 124, 232, 40),
            text: Text::from_str(&res.font, 52, 132, text.as_str()),
            cursor: Text::from_str(&res.font, 0, 0, cursor_str()),
            choice: initial_choice,
            no_x_diff,
            phase: YesNoPhase::Start,
        }
    }

    /// What [`YesNoPrompt::draw`] appends: the window, the text and the cursor.
    pub open spec fn drawn(&self) -> Seq<DrawCommandView> {
        self.window.drawn() + self.text.drawn() + self.cursor.drawn()
    }

    pub fn draw(&self, out: &mut Vec<DrawCommand>)
        requires
            self.wf(),
        ensures
            views(final(out)@) == views(old(out)@) + self.drawn(),
    {
        self.window.draw(out);
        self.text.draw(out);
        self.cursor.draw(out);
        assert(views(final(out)@) =~= views(old(out)@) + self.drawn());
    }

    fn update_cursor_pos(&mut self)
        ensures
            final(self).cursor.offset() == (
                cursor_x(old(self).choice, old(self).no_x_diff),
                CURSOR_Y,
            ),
            final(self).cursor.glyphs() == old(self).cursor.glyphs(),
            final(self).cursor.shown() == old(self).cursor.shown(),
            final(self).cursor.cell() == old(self).cursor.cell(),
            final(self).cursor.size() == old(self).cursor.size(),
            old(self).cursor.wf() ==> final(self).cursor.wf(),
            *final(self) == (YesNoPrompt { cursor: final(self).cursor, ..*old(self) }),
    {
        let x: i32 = if self.choice {
            CURSOR_X
        } else {
            crate::numeric::clamp_to_i32(CURSOR_X as i64 + 6 * (self.no_x_diff as i64))
        };
        self.cursor.set_offset(x, CURSOR_Y);
    }

    /// The phase that goes with what is shown: the question is revealed
    /// first, then the cursor, and then the prompt waits.
    pub open spec fn phase_for(&self) -> YesNoPhase {
        if self.text.shown() < self.text.glyphs().len() {
            YesNoPhase::RevealText
        } else if self.cursor.shown() < self.cursor.glyphs().len() {
            YesNoPhase::RevealCursor
        } else {
            YesNoPhase::Waiting
        }
    }

    /// What one poll makes of the prompt and its context.
    ///
    /// The question is revealed glyph by glyph, then the cursor. After
    /// that left moves the cursor to yes and right to no, each with the
    /// cursor sound, and confirm gives the answer that the cursor is at,
    /// yes with the sound of confirming and no with that of cancelling.
    pub open spec fn step(
        &self,
        before: &YesNoPrompt,
        ctx: &ModeContext,
        ctx_before: &ModeContext,
        r: Poll<YesNoPromptEvent>,
    ) -> bool {
        let input = &ctx_before.input;
        &&& self.wf()
        &&& self.window == before.window
        &&& self.no_x_diff == before.no_x_diff
        &&& self.text.same_text(&before.text)
        &&& self.cursor.glyphs() == before.cursor.glyphs()
        &&& self.cursor.cell() == before.cursor.cell()
        &&& self.cursor.size() == before.cursor.size()
        &&& match before.phase {
            YesNoPhase::Start => {
                &&& r is Pending
                &&& *ctx == *ctx_before
                &&& self.choice == before.choice
                &&& self.text.shown() == 0
                &&& self.cursor.shown() == 0
                &&& self.cursor.offset() == (cursor_x(before.choice, before.no_x_diff), CURSOR_Y)
                &&& self.phase == self.phase_for()
            },
            YesNoPhase::RevealText => {
                &&& r is Pending
                &&& *ctx == *ctx_before
                &&& self.choice == before.choice
                &&& self.text.shown() == if before.text.shown() < before.text.glyphs().len() {
                    before.text.shown() + 1
                } else {
                    before.text.shown()
                }
                &&& self.cursor.shown() == if self.text.shown() == self.text.glyphs().len() {
                    0
                } else {
                    before.cursor.shown()
                }
                &&& self.cursor.offset() == before.cursor.offset()
                &&& self.phase == self.phase_for()
            },
            YesNoPhase::RevealCursor => {
                &&& r is Pending
                &&& *ctx == *ctx_before
                &&& self.choice == before.choice
                &&& self.text.shown() == before.text.shown()
                &&& self.cursor.shown() == if before.cursor.shown() < before.cursor.glyphs().len() {
                    before.cursor.shown() + 1
                } else {
                    before.cursor.shown()
                }
                &&& self.cursor.offset() == before.cursor.offset()
                &&& self.phase == if self.cursor.shown() < self.cursor.glyphs().len() {
                    YesNoPhase::RevealCursor
                } else {
                    YesNoPhase::Waiting
                }
            },
            YesNoPhase::Waiting => {
                &&& self.text.shown() == before.text.shown()
                &&& self.cursor.shown() == before.cursor.shown()
                &&& if input.key_pressed(GameKey::Confirm) {
                    &&& self.phase == YesNoPhase::Start
                    &&& self.choice == before.choice
                    &&& self.cursor.offset() == before.cursor.offset()
                    &&& r == Poll::Ready(
                        if before.choice {
                            YesNoPromptEvent::Yes
                        } else {
                            YesNoPromptEvent::No
                        },
                    )
                    &&& ctx.played(
                        ctx_before,
                        seq![
                            if before.choice {
                                Sfx::Confirm
                            } else {
                                Sfx::Cancel
                            },
                        ],
                    )
                } else if input.key_pressed(GameKey::Left) || input.key_pressed(GameKey::Right) {
                    &&& r is Pending
                    &&& self.phase == YesNoPhase::Waiting
                    &&& self.choice == input.key_pressed(GameKey::Left)
                    &&& self.cursor.offset() == (cursor_x(self.choice, before.no_x_diff), CURSOR_Y)
                    &&& ctx.played(ctx_before, seq![Sfx::Cursor])
                } else {
                    &&& r is Pending
                    &&& self.phase == YesNoPhase::Waiting
                    &&& self.choice == before.choice
                    &&& self.cursor.offset() == before.cursor.offset()
                    &&& *ctx == *ctx_before
                }
            },
        }
    }

    fn settle_phase(&mut self)
        requires
            old(self).wf(),
        ensures
            *final(self) == (YesNoPrompt { phase: old(self).phase_for(), ..*old(self) }),
    {
        self.phase = if !self.text.all_chars_shown() {
            YesNoPhase::RevealText
        } else if !self.cursor.all_chars_shown() {
            YesNoPhase::RevealCursor
        } else {
            YesNoPhase::Waiting
        };
    }

    /// Runs the prompt up to its next suspension point or to its end.
    pub fn update(&mut self, mctx: &mut ModeContext) -> (r: Poll<YesNoPromptEvent>)
        requires
            old(self).wf(),
            old(mctx).audio.wf(),
        ensures
            final(self).step(old(self), final(mctx), old(mctx), r),
            final(mctx).audio.wf(),
    {
        match self.phase {
            YesNoPhase::Start => {
                self.update_cursor_pos();
                self.cursor.hide_all_chars();
                self.text.hide_all_chars();
                self.settle_phase();
                Poll::Pending
            },
            YesNoPhase::RevealText => {
                self.text.show_one_char();
                if self.text.all_chars_shown() {
                    self.cursor.hide_all_chars();
                }
                self.settle_phase();
                Poll::Pending
            },
            YesNoPhase::RevealCursor => {
                self.cursor.show_one_char();
                self.phase = if self.cursor.all_chars_shown() {
                    YesNoPhase::Waiting
                } else {
                    YesNoPhase::RevealCursor
                };
                Poll::Pending
            },
            YesNoPhase::Waiting => {
                if mctx.input.is_key_pressed(GameKey::Confirm) {
                    self.phase = YesNoPhase::Start;
                    if self.choice {
                        mctx.audio.play_sfx(Sfx::Confirm);
                        proof {
                            lemma_sfx_commands(&old(mctx).audio, Sfx::Confirm);
                        }
                        Poll::Ready(YesNoPromptEvent::Yes)
                    } else {
                        mctx.audio.play_sfx(Sfx::Cancel);
                        proof {
                            lemma_sfx_commands(&old(mctx).audio, Sfx::Cancel);
                        }
                        Poll::Ready(YesNoPromptEvent::No)
                    }
                } else if mctx.input.is_key_pressed(GameKey::Left) {
                    mctx.audio.play_sfx(Sfx::Cursor);
                    proof {
                        lemma_sfx_commands(&old(mctx).audio, Sfx::Cursor);
                    }
                    self.choice = true;
                    self.update_cursor_pos();
                    Poll::Pending
                } else if mctx.input.is_key_pressed(GameKey::Right) {
                    mctx.audio.play_sfx(Sfx::Cursor);
                    proof {
                        lemma_sfx_commands(&old(mctx).audio, Sfx::Cursor);
                    }
                    self.choice = false;
                    self.update_cursor_pos();
                    Poll::Pending
                } else {
                    Poll::Pending
                }
            },
        }
    }
}

} // verus!
