//! The credits: they fade in, wait for a key, and fade out.
use vstd::prelude::*;
use crate::async_utils::Poll;
use crate::audio::Sfx;
use crate::contexts::{lemma_sfx_commands, ModeContext};
use crate::draw::{views, DrawCommand, DrawCommandView};
use crate::input::GameKey;
use crate::resources::Resources;
use crate::strings::{push_str, string_from_chars};
use crate::text::Text;

verus! {

/// Number of frames that the credits take to fade in, and to fade out.
pub const FADE_FRAMES: u16 = 60;

/// Where an update of the credits stands.
#[derive(Clone, Copy, Debug, PartialEq, Eq, Structural)]
pub enum CreditsPhase {
    /// No update is in progress.
    Start,
    FadeIn,
    Waiting,
    FadeOut,
}

pub struct Credits {
    pub credits_text: Text,
    pub version_text: Text,
    pub phase: CreditsPhase,
}

#[derive(Clone, Copy, Debug, PartialEq, Eq, Structural)]
pub enum CreditsEvent {
    Done,
}

/// The text of the credits.
pub open spec fn spec_credits_text() -> Seq<char> {
    "Coric's Quest\n\nCreated By\n  tungtn (tung.github.io)\n\nArtwork\n  Lanea Zimmerman (OpenGameArt.org)\n\nEnemy Artwork\n  David E. Gervais (pousse.rapiere.free.fr/tome/)\n\nMusic\n  Avgvsta (OpenGameArt.org)\n  Yubatake (OpenGameArt.org)\n\nSound Effects\n  jfxr.frozenfractal.com\n\nMade with Rust and Miniquad\n"@
}

/// The text of the credits.
pub fn credits_text() -> (s: &'static str)
    ensures
        s@ == spec_credits_text(),
{
    "Coric's Quest\n\nCreated By\n  tungtn (tung.github.io)\n\nArtwork\n  Lanea Zimmerman (OpenGameArt.org)\n\nEnemy Artwork\n  David E. Gervais (pousse.rapiere.free.fr/tome/)\n\nMusic\n  Avgvsta (OpenGameArt.org)\n  Yubatake (OpenGameArt.org)\n\nSound Effects\n  jfxr.frozenfractal.com\n\nMade with Rust and Miniquad\n"
}

/// The version of the game in brackets.
pub open spec fn version_label(version: Seq<char>) -> Seq<char> {
    "("@ + version + ")"@
}

impl Credits {
    pub open spec fn wf(&self) -> bool {
        self.credits_text.wf() && self.version_text.wf()
    }

    /// The credits, with the version of the game behind the title.
    pub fn new(res: &Resources, version: &str) -> (c: Credits)
        ensures
            c.wf(),
            c.phase == CreditsPhase::Start,
            c.credits_text.written(&res.font, 6, 4, spec_credits_text()),
            c.version_text.written(&res.font, 90, 4, version_label(version@)),
    {
        let mut out: Vec<char> = Vec::new();
        push_str(&mut out, "(");
        push_str(&mut out, version);
        push_str(&mut out, ")");
        let label = string_from_chars(&out);
        Credits {
            credits_text: Text::from_str(&res.font, 6, 4, credits_text()),
            version_text: Text::from_str(&res.font, 6 + 14 * 6, 4, label.as_str()),
            phase: CreditsPhase::Start,
        }
    }

    pub open spec fn drawn(&self) -> Seq<DrawCommandView> {
        self.credits_text.drawn() + self.version_text.drawn()
    }

    pub fn draw(&self, out: &mut Vec<DrawCommand>)
        requires
            self.wf(),
        ensures
            views(final(out)@) == views(old(out)@) + self.drawn(),
    {
        self.credits_text.draw(out);
        self.version_text.draw(out);
        assert(views(final(out)@) =~= views(old(out)@) + self.drawn());
    }

    /// Nothing changed but the color laid over the screen.
    pub open spec fn only_fade(ctx: &ModeContext, before: &ModeContext) -> bool {
        *ctx == (ModeContext { fade: ctx.fade, ..*before })
    }

    /// What one poll makes of the credits and their context.
    ///
    /// The screen fades in from black, one frame a poll. Then the credits
    /// wait for cancel or confirm, which plays the sound of cancelling
    /// and starts the screen fading out to black. The poll that finds the
    /// screen black ends the update.
    pub open spec fn step(
        &self,
        before: &Credits,
        ctx: &ModeContext,
        ctx_before: &ModeContext,
        r: Poll<CreditsEvent>,
    ) -> bool {
        let input = &ctx_before.input;
        &&& self.credits_text == before.credits_text
        &&& self.version_text == before.version_text
        &&& match before.phase {
            CreditsPhase::Start => {
                &&& r is Pending
                &&& Credits::only_fade(ctx, ctx_before)
                &&& ctx.fade.frames() == FADE_FRAMES
                &&& ctx.fade.frame() == 1
                &&& ctx.fade.target()[3] == 0
                &&& self.phase == CreditsPhase::FadeIn
            },
            CreditsPhase::FadeIn => {
                &&& r is Pending
                &&& Credits::only_fade(ctx, ctx_before)
                &&& faded_on(ctx, ctx_before)
                &&& self.phase == if ctx_before.fade.frame() + 1 < ctx_before.fade.frames() {
                    CreditsPhase::FadeIn
                } else {
                    CreditsPhase::Waiting
                }
            },
            CreditsPhase::Waiting => if input.key_pressed(GameKey::Cancel) || input.key_pressed(
                GameKey::Confirm,
            ) {
                &&& r is Pending
                &&& self.phase == CreditsPhase::FadeOut
                &&& *ctx == (ModeContext { fade: ctx.fade, audio: ctx.audio, ..*ctx_before })
                &&& ctx.audio.same_state(&ctx_before.audio)
                &&& ctx.audio.commands() == ctx_before.audio.commands()
                    + ctx_before.audio.sfx_commands(Sfx::Cancel)
                &&& ctx.fade.frames() == FADE_FRAMES
                &&& ctx.fade.frame() == 1
                &&& ctx.fade.target()[3] == crate::fade::CHANNEL_MAX
            } else {
                &&& r is Pending
                &&& self.phase == CreditsPhase::Waiting
                &&& *ctx == *ctx_before
            },
            CreditsPhase::FadeOut => {
                &&& Credits::only_fade(ctx, ctx_before)
                &&& faded_on(ctx, ctx_before)
                &&& if ctx_before.fade.frame() + 1 < ctx_before.fade.frames() {
                    r is Pending && self.phase == CreditsPhase::FadeOut
                } else {
                    r == Poll::Ready(CreditsEvent::Done) && self.phase == CreditsPhase::Start
                }
            },
        }
    }

    /// Runs the credits up to their next suspension point or to their end.
    pub fn update(&mut self, mctx: &mut ModeContext) -> (r: Poll<CreditsEvent>)
        requires
            old(mctx).audio.wf(),
        ensures
            final(self).step(old(self), final(mctx), old(mctx), r),
            final(mctx).audio.wf(),
    {
        match self.phase {
            CreditsPhase::Start => {
                mctx.fade.in_from_black(FADE_FRAMES);
                let _ = mctx.fade.to_color();
                self.phase = CreditsPhase::FadeIn;
                Poll::Pending
            },
            CreditsPhase::FadeIn => {
                match mctx.fade.to_color() {
                    Poll::Pending => {},
                    Poll::Ready(_) => {
                        self.phase = CreditsPhase::Waiting;
                    },
                }
                Poll::Pending
            },
            CreditsPhase::Waiting => {
                if mctx.input.is_key_pressed(GameKey::Cancel) || mctx.input.is_key_pressed(
                    GameKey::Confirm,
                ) {
                    mctx.audio.play_sfx(Sfx::Cancel);
                    mctx.fade.out_to_black(FADE_FRAMES);
                    let _ = mctx.fade.to_color();
                    self.phase = CreditsPhase::FadeOut;
                }
                Poll::Pending
            },
            CreditsPhase::FadeOut => {
                match mctx.fade.to_color() {
                    Poll::Pending => Poll::Pending,
                    Poll::Ready(_) => {
                        self.phase = CreditsPhase::Start;
                        Poll::Ready(CreditsEvent::Done)
                    },
                }
            },
        }
    }
}

/// The change of color in progress went on by one frame, or reached its
/// target after the last one.
pub open spec fn faded_on(ctx: &ModeContext, before: &ModeContext) -> bool {
    &&& ctx.fade.start() == before.fade.start()
    &&& ctx.fade.target() == before.fade.target()
    &&& ctx.fade.frames() == before.fade.frames()
    &&& if before.fade.frame() + 1 < before.fade.frames() {
        &&& ctx.fade.frame() == before.fade.frame() + 1
        &&& ctx.fade.color().len() == 4
        &&& forall|i: int|
            0 <= i < 4 ==> #[trigger] ctx.fade.color()[i] == crate::fade::blend(
                before.fade.start()[i],
                before.fade.target()[i],
                before.fade.frame() + 1,
                before.fade.frames(),
            )
    } else {
        &&& ctx.fade.frame() == before.fade.frame()
        &&& ctx.fade.color() == before.fade.target()
    }
}

} // verus!
