//! The opening screen: it starts the opening music.
use vstd::prelude::*;
use crate::async_utils::Poll;
use crate::audio::Music;
use crate::contexts::ModeContext;
use crate::draw::{views, DrawCommand, DrawCommandView};
use crate::resources::Resources;
use crate::sprite::{Playback, Sprite};

verus! {

pub struct Intro {
    pub air: Sprite,
}

#[derive(Clone, Copy, Debug, PartialEq, Eq, Structural)]
pub enum IntroEvent {
    Done,
}

impl Intro {
    pub open spec fn wf(&self) -> bool {
        self.air.wf()
    }

    /// The opening screen; `None` where its picture has no usable sprite sheet.
    pub fn new(res: &Resources) -> (r: Option<Intro>)
        ensures
            r is Some == res.sprite_sheet_usable("air.png"@),
            r matches Some(i) ==> i.wf() && i.air.made_of(&res.sheet_named("air.png"@))
                && i.air.playback() == (Playback { tag: 0, frame: 0, t: 0, forward: true }),
    {
        match res.sprite_sheet("air.png") {
            Some(sheet) => match Sprite::new(sheet) {
                Some(air) => Some(Intro { air }),
                None => None,
            },
            None => None,
        }
    }

    pub open spec fn drawn(&self) -> Seq<DrawCommandView> {
        self.air.drawn(144, 56)
    }

    pub fn draw(&self, out: &mut Vec<DrawCommand>)
        requires
            self.wf(),
        ensures
            views(final(out)@) == views(old(out)@) + self.drawn(),
    {
        self.air.draw(out, 144, 56);
    }

    /// What one poll makes of the context: the opening music plays, and the screen is done.
    pub open spec fn step(ctx: &ModeContext, ctx_before: &ModeContext, r: Poll<IntroEvent>) -> bool {
        &&& r == Poll::Ready(IntroEvent::Done)
        &&& *ctx == (ModeContext { audio: ctx.audio, ..*ctx_before })
        &&& ctx.audio.wf()
        &&& ctx.audio.music() == Some(Music::Intro)
        &&& ctx.audio.music_volume_custom() == ctx_before.audio.music_volume_custom()
        &&& ctx.audio.sound_volume_custom() == ctx_before.audio.sound_volume_custom()
        &&& ctx.audio.music_volume_scripted() == ctx_before.audio.music_volume_scripted()
        &&& ctx.audio.music_volume_scripted_target()
            == ctx_before.audio.music_volume_scripted_target()
        &&& ctx.audio.commands() == ctx_before.audio.commands() + ctx_before.audio.music_commands(
            Some(Music::Intro),
        )
    }

    pub fn update(&mut self, mctx: &mut ModeContext) -> (r: Poll<IntroEvent>)
        requires
            old(mctx).audio.wf(),
        ensures
            *final(self) == *old(self),
            Intro::step(final(mctx), old(mctx), r),
    {
        mctx.audio.play_music(Some(Music::Intro));
        Poll::Ready(IntroEvent::Done)
    }
}

} // verus!
