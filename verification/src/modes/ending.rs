//! The ending: four paragraphs that are typed out slowly, one after the
//! other, the first time they are shown.
use vstd::prelude::*;
use crate::async_utils::Poll;
use crate::audio::{Music, Sfx};
use crate::contexts::ModeContext;
use crate::draw::{views, DrawCommand, DrawCommandView};
use crate::input::GameKey;
use crate::modes::credits::{faded_on, FADE_FRAMES};
use crate::resources::Resources;
use crate::text::Text;

verus! {

/// Number of paragraphs.
pub const NUM_TEXTS: usize = 4;

/// Ticks between two characters of a paragraph.
pub const TICKS_PER_CHAR: u16 = 5;

/// Ticks between two paragraphs.
pub const TICKS_PER_PAUSE: u16 = 150;

/// Where an update of the ending stands.
#[derive(Clone, Copy, Debug, PartialEq, Eq, Structural)]
pub enum EndingPhase {
    /// No update is in progress.
    Start,
    /// The screen fades in over the text that was typed out before.
    FadeIn,
    /// The pause before paragraph `text` is typed: `ticks` ticks of it have passed.
    Pause { text: usize, ticks: u16 },
    /// Paragraph `text` is typed: `ticks` ticks have passed since its last character.
    Typing { text: usize, ticks: u16 },
    /// All is shown; the ending waits to be confirmed.
    Waiting,
    /// The screen fades out.
    FadeOut,
}

pub struct Ending {
    pub texts: Vec<Text>,
    /// The paragraphs were typed out once.
    pub text_shown: bool,
    pub phase: EndingPhase,
}

#[derive(Clone, Copy, Debug, PartialEq, Eq, Structural)]
pub enum EndingEvent {
    Credits,
}

/// What drawing the given texts appends.
pub open spec fn texts_drawn(texts: Seq<Text>) -> Seq<DrawCommandView>
    decreases texts.len(),
{
    if texts.len() == 0 {
        Seq::empty()
    } else {
        texts_drawn(texts.drop_last()) + texts.last().drawn()
    }
}

impl Ending {
    pub open spec fn wf(&self) -> bool {
        &&& self.texts@.len() == NUM_TEXTS
        &&& forall|i: int| 0 <= i < NUM_TEXTS ==> (#[trigger] self.texts@[i]).wf()
        &&& match self.phase {
            EndingPhase::Pause { text, ticks } => 1 <= text < NUM_TEXTS && 1 <= ticks
                <= TICKS_PER_PAUSE,
            EndingPhase::Typing { text, ticks } => text < NUM_TEXTS && 1 <= ticks
                <= TICKS_PER_CHAR,
            _ => true,
        }
    }

    /// The paragraphs of the ending, each with its place on the screen.
    pub open spec fn paragraphs() -> Seq<(i32, i32, Seq<char>)> {
        seq![
            (64i32, 32i32, "With the Spirits wrested from\nthe clutches of darkness, peace\nreturned once more to the land."@),
            (64i32, 72i32, "But what of the malevolent force\nthat had come to possess them?"@),
            (64i32, 104i32, "Whenever evil rises, so, too,\nshall a hero rise to defeat it\u{2026}"@),
            (106i32, 136i32, "~ T H E   E N D ~"@),
        ]
    }

    pub fn new(res: &Resources) -> (e: Ending)
        ensures
            e.wf(),
            e.phase == EndingPhase::Start,
            !e.text_shown,
            forall|i: int|
                0 <= i < NUM_TEXTS ==> (#[trigger] e.texts@[i]).written(
                    &res.font,
                    Ending::paragraphs()[i].0,
                    Ending::paragraphs()[i].1,
                    Ending::paragraphs()[i].2,
                ),
    {
        let mut texts: Vec<Text> = Vec::new();
        texts.push(
            Text::from_str(
                &res.font,
                64,
                32,
                "With the Spirits wrested from\nthe clutches of darkness, peace\nreturned once more to the land.",
            ),
        );
        texts.push(
            Text::from_str(
                &res.font,
                64,
                72,
                "But what of the malevolent force\nthat had come to possess them?",
            ),
        );
        texts.push(
            Text::from_str(
                &res.font,
                64,
                104,
                "Whenever evil rises, so, too,\nshall a hero rise to defeat it\u{2026}",
            ),
        );
        texts.push(Text::from_str(&res.font, 106, 136, "~ T H E   E N D ~"));
        Ending { texts, text_shown: false, phase: EndingPhase::Start }
    }

    pub open spec fn drawn(&self) -> Seq<DrawCommandView> {
        texts_drawn(self.texts@)
    }

    pub fn draw(&self, out: &mut Vec<DrawCommand>)
        requires
            self.wf(),
        ensures
            views(final(out)@) == views(old(out)@) + self.drawn(),
    {
        let mut i: usize = 0;
        assert(views(out@) + texts_drawn(self.texts@.take(0)) =~= views(out@));
        while i < self.texts.len()
            invariant
                i <= self.texts@.len(),
                self.wf(),
                views(out@) == views(old(out)@) + texts_drawn(self.texts@.take(i as int)),
            decreases self.texts@.len() - i,
        {
            self.texts[i].draw(out);
            proof {
                let next = self.texts@.take(i + 1);
                assert(next.drop_last() =~= self.texts@.take(i as int));
                assert(next.last() == self.texts@[i as int]);
                assert(views(out@) =~= views(old(out)@) + texts_drawn(next));
            }
            i = i + 1;
        }
        assert(self.texts@.take(self.texts@.len() as int) =~= self.texts@);
    }

    /// The texts are the same but for how many of their glyphs are shown.
    pub open spec fn same_texts(&self, before: &Ending) -> bool {
        &&& self.texts@.len() == before.texts@.len()
        &&& forall|i: int|
            0 <= i < before.texts@.len() ==> (#[trigger] self.texts@[i]).same_text(&before.texts@[i])
    }

    /// No paragraph shows a glyph.
    pub open spec fn all_hidden(&self) -> bool {
        forall|i: int| 0 <= i < self.texts@.len() ==> (#[trigger] self.texts@[i]).shown() == 0
    }

    /// Every paragraph shows all of its glyphs.
    pub open spec fn all_shown(&self) -> bool {
        forall|i: int|
            0 <= i < self.texts@.len() ==> (#[trigger] self.texts@[i]).shown()
                == self.texts@[i].glyphs().len()
    }

    fn hide_all(&mut self)
        requires
            old(self).wf(),
        ensures
            final(self).wf(),
            final(self).same_texts(old(self)),
            final(self).all_hidden(),
            final(self).phase == old(self).phase,
            final(self).text_shown == old(self).text_shown,
    {
        let mut i: usize = 0;
        while i < self.texts.len()
            invariant
                i <= self.texts@.len() == NUM_TEXTS,
                self.phase == old(self).phase,
                self.text_shown == old(self).text_shown,
                forall|j: int| 0 <= j < NUM_TEXTS ==> (#[trigger] self.texts@[j]).wf(),
                forall|j: int|
                    0 <= j < NUM_TEXTS ==> (#[trigger] self.texts@[j]).same_text(&old(self).texts@[j]),
                forall|j: int| 0 <= j < i ==> (#[trigger] self.texts@[j]).shown() == 0,
            decreases self.texts@.len() - i,
        {
            self.texts[i].hide_all_chars();
            i = i + 1;
        }
    }

    fn show_all(&mut self)
        requires
            old(self).wf(),
        ensures
            final(self).wf(),
            final(self).same_texts(old(self)),
            final(self).all_shown(),
            final(self).phase == old(self).phase,
            final(self).text_shown == old(self).text_shown,
    {
        let mut i: usize = 0;
        while i < self.texts.len()
            invariant
                i <= self.texts@.len() == NUM_TEXTS,
                self.phase == old(self).phase,
                self.text_shown == old(self).text_shown,
                forall|j: int| 0 <= j < NUM_TEXTS ==> (#[trigger] self.texts@[j]).wf(),
                forall|j: int|
                    0 <= j < NUM_TEXTS ==> (#[trigger] self.texts@[j]).same_text(&old(self).texts@[j]),
                forall|j: int|
                    0 <= j < i ==> (#[trigger] self.texts@[j]).shown()
                        == self.texts@[j].glyphs().len(),
            decreases self.texts@.len() - i,
        {
            self.texts[i].show_all_chars();
            i = i + 1;
        }
    }

    /// The phase in which paragraph `text` goes on once all that was due
    /// before is done: it is typed where it has glyphs to show, else the
    /// pause before the next paragraph begins, and after the last
    /// paragraph the ending waits.
    pub open spec fn typing_from(texts: Seq<Text>, text: int) -> EndingPhase
        decreases NUM_TEXTS - text,
    {
        if text >= NUM_TEXTS {
            EndingPhase::Waiting
        } else if texts[text].shown() < texts[text].glyphs().len() {
            EndingPhase::Typing { text: text as usize, ticks: 1 }
        } else if text + 1 >= NUM_TEXTS {
            EndingPhase::Waiting
        } else {
            EndingPhase::Pause { text: (text + 1) as usize, ticks: 1 }
        }
    }

    /// Goes on with paragraph `text`; the paragraphs count as typed out
    /// once the ending waits.
    fn type_from(&mut self, text: usize)
        requires
            old(self).wf(),
            text <= NUM_TEXTS,
        ensures
            final(self).wf(),
            final(self).texts == old(self).texts,
            final(self).phase == Ending::typing_from(old(self).texts@, text as int),
            final(self).text_shown == (old(self).text_shown || final(self).phase
                == EndingPhase::Waiting),
    {
        if text >= NUM_TEXTS {
            self.phase = EndingPhase::Waiting;
            self.text_shown = true;
        } else if !self.texts[text].all_chars_shown() {
            self.phase = EndingPhase::Typing { text, ticks: 1 };
        } else if text + 1 >= NUM_TEXTS {
            self.phase = EndingPhase::Waiting;
            self.text_shown = true;
        } else {
            self.phase = EndingPhase::Pause { text: text + 1, ticks: 1 };
        }
    }

    /// What one poll makes of the ending and its context while the
    /// paragraphs are typed out: a character every five ticks, and a
    /// pause of 150 ticks before each paragraph but the first.
    pub open spec fn step_typing(&self, before: &Ending) -> bool {
        &&& self.wf()
        &&& self.same_texts(before)
        &&& self.text_shown == (before.text_shown || self.phase == EndingPhase::Waiting)
        &&& match before.phase {
            EndingPhase::Pause { text, ticks } => {
                &&& forall|i: int|
                    0 <= i < NUM_TEXTS ==> (#[trigger] self.texts@[i]).shown()
                        == before.texts@[i].shown()
                &&& self.phase == if ticks < TICKS_PER_PAUSE {
                    EndingPhase::Pause { text, ticks: (ticks + 1) as u16 }
                } else {
                    Ending::typing_from(before.texts@, text as int)
                }
            },
            EndingPhase::Typing { text, ticks } => if ticks < TICKS_PER_CHAR {
                &&& forall|i: int|
                    0 <= i < NUM_TEXTS ==> (#[trigger] self.texts@[i]).shown()
                        == before.texts@[i].shown()
                &&& self.phase == (EndingPhase::Typing { text, ticks: (ticks + 1) as u16 })
            } else {
                &&& forall|i: int|
                    0 <= i < NUM_TEXTS && i != text ==> (#[trigger] self.texts@[i]).shown()
                        == before.texts@[i].shown()
                &&& self.texts@[text as int].shown() == if before.texts@[text as int].shown()
                    < before.texts@[text as int].glyphs().len() {
                    before.texts@[text as int].shown() + 1
                } else {
                    before.texts@[text as int].shown()
                }
                &&& self.phase == Ending::typing_from(self.texts@, text as int)
            },
            _ => true,
        }
    }

    /// What one poll makes of the ending and its context.
    pub open spec fn step(
        &self,
        before: &Ending,
        ctx: &ModeContext,
        ctx_before: &ModeContext,
        r: Poll<EndingEvent>,
    ) -> bool {
        &&& self.wf()
        &&& self.same_texts(before)
        &&& match before.phase {
            EndingPhase::Start => {
                &&& r is Pending
                &&& self.text_shown == before.text_shown
                &&& if before.text_shown {
                    &&& self.all_shown()
                    &&& self.phase == EndingPhase::FadeIn
                    &&& *ctx == (ModeContext { fade: ctx.fade, ..*ctx_before })
                    &&& ctx.fade.frames() == FADE_FRAMES
                    &&& ctx.fade.frame() == 1
                } else {
                    &&& self.all_hidden()
                    &&& self.phase == Ending::typing_from(self.texts@, 0)
                    &&& *ctx == (ModeContext { audio: ctx.audio, ..*ctx_before })
                    &&& ctx.audio.music() == Some(Music::Ending)
                    &&& ctx.audio.commands() == ctx_before.audio.commands()
                        + ctx_before.audio.music_commands(Some(Music::Ending))
                }
            },
            EndingPhase::FadeIn => {
                &&& r is Pending
                &&& self.texts == before.texts
                &&& self.text_shown == before.text_shown
                &&& *ctx == (ModeContext { fade: ctx.fade, audio: ctx.audio, ..*ctx_before })
                &&& faded_on(ctx, ctx_before)
                &&& if ctx_before.fade.frame() + 1 < ctx_before.fade.frames() {
                    &&& self.phase == EndingPhase::FadeIn
                    &&& ctx.audio == ctx_before.audio
                } else {
                    &&& self.phase == EndingPhase::Waiting
                    &&& ctx.audio.music_volume_scripted_target() == 100
                    &&& ctx.audio.commands() == ctx_before.audio.commands()
                }
            },
            EndingPhase::Pause { .. } | EndingPhase::Typing { .. } => {
                &&& r is Pending
                &&& *ctx == *ctx_before
                &&& self.step_typing(before)
            },
            EndingPhase::Waiting => {
                &&& r is Pending
                &&& self.texts == before.texts
                &&& if ctx_before.input.key_pressed(GameKey::Confirm) {
                    &&& self.phase == EndingPhase::FadeOut
                    &&& *ctx == (ModeContext { fade: ctx.fade, audio: ctx.audio, ..*ctx_before })
                    &&& ctx.audio.music_volume_scripted_target() == 40
                    &&& ctx.audio.commands() == ctx_before.audio.commands()
                        + ctx_before.audio.sfx_commands(Sfx::Confirm)
                    &&& ctx.fade.frames() == FADE_FRAMES
                    &&& ctx.fade.frame() == 1
                } else {
                    &&& self.phase == EndingPhase::Waiting
                    &&& *ctx == *ctx_before
                }
            },
            EndingPhase::FadeOut => {
                &&& *ctx == (ModeContext { fade: ctx.fade, ..*ctx_before })
                &&& faded_on(ctx, ctx_before)
                &&& if ctx_before.fade.frame() + 1 < ctx_before.fade.frames() {
                    &&& r is Pending
                    &&& self.phase == EndingPhase::FadeOut
                    &&& self.texts == before.texts
                } else {
                    &&& r == Poll::Ready(EndingEvent::Credits)
                    &&& self.phase == EndingPhase::Start
                    &&& self.all_hidden()
                }
            },
        }
    }

    /// Runs the ending up to its next suspension point or to its end.
    pub fn update(&mut self, mctx: &mut ModeContext) -> (r: Poll<EndingEvent>)
        requires
            old(self).wf(),
            old(mctx).audio.wf(),
        ensures
            final(self).step(old(self), final(mctx), old(mctx), r),
            final(mctx).audio.wf(),
    {
        match self.phase {
            EndingPhase::Start => {
                if self.text_shown {
                    self.show_all();
                    mctx.fade.in_from_black(FADE_FRAMES);
                    let _ = mctx.fade.to_color();
                    self.phase = EndingPhase::FadeIn;
                } else {
                    mctx.audio.play_music(Some(Music::Ending));
                    self.hide_all();
                    self.type_from(0);
                }
                Poll::Pending
            },
            EndingPhase::FadeIn => {
                match mctx.fade.to_color() {
                    Poll::Pending => {},
                    Poll::Ready(_) => {
                        mctx.audio.set_music_volume_scripted(100);
                        self.phase = EndingPhase::Waiting;
                    },
                }
                Poll::Pending
            },
            EndingPhase::Pause { text, ticks } => {
                if ticks < TICKS_PER_PAUSE {
                    self.phase = EndingPhase::Pause { text, ticks: ticks + 1 };
                } else {
                    self.type_from(text);
                }
                Poll::Pending
            },
            EndingPhase::Typing { text, ticks } => {
                if ticks < TICKS_PER_CHAR {
                    self.phase = EndingPhase::Typing { text, ticks: ticks + 1 };
                } else {
                    self.texts[text].show_one_char();
                    self.type_from(text);
                }
                Poll::Pending
            },
            EndingPhase::Waiting => {
                if mctx.input.is_key_pressed(GameKey::Confirm) {
                    mctx.audio.play_sfx(Sfx::Confirm);
                    mctx.audio.set_music_volume_scripted(40);
                    mctx.fade.out_to_black(FADE_FRAMES);
                    let _ = mctx.fade.to_color();
                    self.phase = EndingPhase::FadeOut;
                }
                Poll::Pending
            },
            EndingPhase::FadeOut => {
                match mctx.fade.to_color() {
                    Poll::Pending => Poll::Pending,
                    Poll::Ready(_) => {
                        self.hide_all();
                        self.phase = EndingPhase::Start;
                        Poll::Ready(EndingEvent::Credits)
                    },
                }
            },
        }
    }
}

} // verus!
