//! The color that is laid over the whole screen, and its change over time.
use vstd::prelude::*;
use crate::async_utils::Poll;

verus! {

/// The largest value of a color channel: full intensity, fully opaque.
pub const CHANNEL_MAX: i32 = 1000;

/// Red, green, blue and opacity, each in thousandths.
pub type Rgba = [i32; 4];

pub struct Fade {
    color: Rgba,
    start: Rgba,
    target: Rgba,
    frame: u16,
    frames: u16,
}

/// The value of a channel on its way from `start` to `target`, `frame`
/// frames into a change that takes `frames` frames.
pub open spec fn blend(start: i32, target: i32, frame: int, frames: int) -> int
    recommends
        0 < frames,
        0 <= frame <= frames,
{
    start + ((target - start) * frame) / frames
}

impl Fade {
    /// The color that is laid over the screen now.
    pub closed spec fn color(&self) -> Seq<i32> {
        self.color@
    }

    /// Color at the start of the change in progress.
    pub closed spec fn start(&self) -> Seq<i32> {
        self.start@
    }

    /// Color that the change in progress leads to.
    pub closed spec fn target(&self) -> Seq<i32> {
        self.target@
    }

    /// Number of the frame that the change in progress is at.
    pub closed spec fn frame(&self) -> int {
        self.frame as int
    }

    /// Number of frames that the change in progress takes.
    pub closed spec fn frames(&self) -> int {
        self.frames as int
    }

    /// Nothing is laid over the screen, and no change is in progress.
    pub open spec fn clear(&self) -> bool {
        &&& self.color() == seq![0i32, 0i32, 0i32, 0i32]
        &&& self.start() == seq![0i32, 0i32, 0i32, 0i32]
        &&& self.target() == seq![0i32, 0i32, 0i32, 0i32]
        &&& self.frame() == 0
        &&& self.frames() == 0
    }

    /// Nothing laid over the screen.
    pub fn new() -> (f: Fade)
        ensures
            f.color() == seq![0i32, 0i32, 0i32, 0i32],
            f.clear(),
    {
        let f = Fade { color: [0; 4], start: [0; 4], target: [0; 4], frame: 0, frames: 0 };
        assert(f.color() =~= seq![0i32, 0i32, 0i32, 0i32]);
        assert(f.start() =~= seq![0i32, 0i32, 0i32, 0i32]);
        assert(f.target() =~= seq![0i32, 0i32, 0i32, 0i32]);
        f
    }

    /// The current color.
    pub fn get(&self) -> (rgba: Rgba)
        ensures
            rgba@ == self.color(),
    {
        self.color
    }

    /// The color is `rgba`, and the change in progress is where it was.
    pub open spec fn recolored(&self, before: &Fade, rgba: Seq<i32>) -> bool {
        &&& self.color() == rgba
        &&& self.start() == before.start()
        &&& self.target() == before.target()
        &&& self.frame() == before.frame()
        &&& self.frames() == before.frames()
    }

    /// Lays `rgba` over the screen at once. A change in progress goes on
    /// from where it was.
    pub fn set(&mut self, rgba: Rgba)
        ensures
            final(self).color() == rgba@,
            final(self).recolored(old(self), rgba@),
    {
        self.color = rgba;
    }

    /// Starts a change of color that reaches `target` after `frames`
    /// frames. The color stays as it is until the first step.
    pub fn begin(&mut self, frames: u16, target: Rgba)
        ensures
            final(self).color() == old(self).color(),
            final(self).start() == old(self).color(),
            final(self).target() == target@,
            final(self).frame() == 0,
            final(self).frames() == frames,
    {
        self.start = self.color;
        self.target = target;
        self.frame = 0;
        self.frames = frames;
    }

    /// One step of the change in progress: the next frame on the way to
    /// the target, reported as pending, or the target itself, reported as
    /// ready, once all frames before the last have been shown.
    ///
    /// A change of `frames` frames is pending `frames - 1` times, and not
    /// at all where `frames` is below 2.
    pub fn to_color(&mut self) -> (r: Poll<()>)
        ensures
            final(self).start() == old(self).start(),
            final(self).target() == old(self).target(),
            final(self).frames() == old(self).frames(),
            old(self).frame() + 1 < old(self).frames() ==> {
                &&& r is Pending
                &&& final(self).frame() == old(self).frame() + 1
                &&& final(self).color().len() == 4
                &&& forall|i: int|
                    0 <= i < 4 ==> #[trigger] final(self).color()[i] == blend(
                        old(self).start()[i],
                        old(self).target()[i],
                        old(self).frame() + 1,
                        old(self).frames(),
                    )
            },
            old(self).frame() + 1 >= old(self).frames() ==> {
                &&& r is Ready
                &&& final(self).frame() == old(self).frame()
                &&& final(self).color() == old(self).target()
            },
    {
        if self.frames > 0 && self.frame < self.frames - 1 {
            self.frame = self.frame + 1;
            let mut color: Rgba = [0; 4];
            let mut i: usize = 0;
            while i < 4
                invariant
                    i <= 4,
                    0 < self.frame < self.frames,
                    forall|j: int|
                        0 <= j < i ==> #[trigger] color@[j] == blend(
                            self.start@[j],
                            self.target@[j],
                            self.frame as int,
                            self.frames as int,
                        ),
                decreases 4 - i,
            {
                let start = self.start[i] as i64;
                let target = self.target[i] as i64;
                let frame = self.frame as i64;
                let frames = self.frames as i64;
                assert(-0x1_0000_0000 * 0xffff <= (target - start) * frame <= 0x1_0000_0000
                    * 0xffff) by (nonlinear_arith)
                    requires
                        -0x1_0000_0000 <= target - start <= 0x1_0000_0000,
                        0 <= frame <= 0xffff,
                ;
                let way = (target - start) * frame;
                let part = if way >= 0 {
                    way / frames
                } else {
                    proof {
                        lemma_floor_division(way as int, frames as int);
                    }
                    -((-way + frames - 1) / frames)
                };
                proof {
                    lemma_blend_between(
                        start as i32,
                        target as i32,
                        frame as int,
                        frames as int,
                    );
                }
                color[i] = (start + part) as i32;
                i = i + 1;
            }
            self.color = color;
            Poll::Pending
        } else {
            self.color = self.target;
            Poll::Ready(())
        }
    }

    /// One step of a change that shows its last frame for a tick: the next
    /// frame on the way to the target, the target itself as the last,
    /// reported as pending; or ready, once the target has been shown.
    ///
    /// A change of `frames` frames is pending `frames` times.
    pub fn fade_step(&mut self) -> (r: Poll<()>)
        ensures
            final(self).start() == old(self).start(),
            final(self).target() == old(self).target(),
            final(self).frames() == old(self).frames(),
            old(self).frame() < old(self).frames() ==> {
                &&& r is Pending
                &&& final(self).frame() == old(self).frame() + 1
                &&& final(self).color().len() == 4
                &&& forall|i: int|
                    0 <= i < 4 ==> #[trigger] final(self).color()[i] == blend(
                        old(self).start()[i],
                        old(self).target()[i],
                        old(self).frame() + 1,
                        old(self).frames(),
                    )
            },
            old(self).frame() >= old(self).frames() ==> r is Ready && *final(self) == *old(self),
    {
        if self.frame < self.frames {
            self.frame = self.frame + 1;
            let mut color: Rgba = [0; 4];
            let mut i: usize = 0;
            while i < 4
                invariant
                    i <= 4,
                    0 < self.frame <= self.frames,
                    forall|j: int|
                        0 <= j < i ==> #[trigger] color@[j] == blend(
                            self.start@[j],
                            self.target@[j],
                            self.frame as int,
                            self.frames as int,
                        ),
                decreases 4 - i,
            {
                color[i] = blend_channel(self.start[i], self.target[i], self.frame, self.frames);
                i = i + 1;
            }
            self.color = color;
            Poll::Pending
        } else {
            Poll::Ready(())
        }
    }

    /// Starts a change from fully opaque to fully clear in the current color.
    pub fn in_from_black(&mut self, frames: u16)
        ensures
            final(self).start() == seq![
                old(self).color()[0],
                old(self).color()[1],
                old(self).color()[2],
                CHANNEL_MAX,
            ],
            final(self).color() == final(self).start(),
            final(self).target() == seq![
                old(self).color()[0],
                old(self).color()[1],
                old(self).color()[2],
                0i32,
            ],
            final(self).frame() == 0,
            final(self).frames() == frames,
    {
        let target: Rgba = [self.color[0], self.color[1], self.color[2], 0];
        self.color[3] = CHANNEL_MAX;
        self.begin(frames, target);
        assert(self.start@ =~= seq![
            old(self).color()[0],
            old(self).color()[1],
            old(self).color()[2],
            CHANNEL_MAX,
        ]);
        assert(self.target@ =~= seq![
            old(self).color()[0],
            old(self).color()[1],
            old(self).color()[2],
            0i32,
        ]);
    }

    /// Starts a change from fully clear to fully opaque in the current color.
    pub fn out_to_black(&mut self, frames: u16)
        ensures
            final(self).start() == seq![
                old(self).color()[0],
                old(self).color()[1],
                old(self).color()[2],
                0i32,
            ],
            final(self).color() == final(self).start(),
            final(self).target() == seq![
                old(self).color()[0],
                old(self).color()[1],
                old(self).color()[2],
                CHANNEL_MAX,
            ],
            final(self).frame() == 0,
            final(self).frames() == frames,
    {
        let target: Rgba = [self.color[0], self.color[1], self.color[2], CHANNEL_MAX];
        self.color[3] = 0;
        self.begin(frames, target);
        assert(self.start@ =~= seq![
            old(self).color()[0],
            old(self).color()[1],
            old(self).color()[2],
            0i32,
        ]);
        assert(self.target@ =~= seq![
            old(self).color()[0],
            old(self).color()[1],
            old(self).color()[2],
            CHANNEL_MAX,
        ]);
    }
}

/// The value of a channel on its way.
pub fn blend_channel(start: i32, target: i32, frame: u16, frames: u16) -> (v: i32)
    requires
        0 < frames,
        frame <= frames,
    ensures
        v == blend(start, target, frame as int, frames as int),
{
    let s = start as i64;
    let t = target as i64;
    let f = frame as i64;
    let n = frames as i64;
    assert(-0x1_0000_0000 * 0xffff <= (t - s) * f <= 0x1_0000_0000 * 0xffff) by (nonlinear_arith)
        requires
            -0x1_0000_0000 <= t - s <= 0x1_0000_0000,
            0 <= f <= 0xffff,
    ;
    let way = (t - s) * f;
    let part = if way >= 0 {
        way / n
    } else {
        proof {
            lemma_floor_division(way as int, n as int);
        }
        -((-way + n - 1) / n)
    };
    proof {
        lemma_blend_between(start, target, frame as int, frames as int);
    }
    (s + part) as i32
}

proof fn lemma_floor_division(way: int, frames: int)
    requires
        way < 0,
        frames > 0,
    ensures
        way / frames == -((-way + frames - 1) / frames),
{
    let q = (-way + frames - 1) / frames;
    let r = (-way + frames - 1) % frames;
    vstd::arithmetic::div_mod::lemma_fundamental_div_mod(-way + frames - 1, frames);
    vstd::arithmetic::div_mod::lemma_mod_bound(-way + frames - 1, frames);
    assert(frames * q == q * frames) by (nonlinear_arith);
    assert(way == (-q) * frames + (frames - 1 - r)) by (nonlinear_arith)
        requires
            -way + frames - 1 == q * frames + r,
    ;
    vstd::arithmetic::div_mod::lemma_fundamental_div_mod_converse(way, frames, -q, frames - 1 - r);
}

/// A channel on its way lies between where it started and where it goes.
pub proof fn lemma_blend_between(start: i32, target: i32, frame: int, frames: int)
    requires
        0 < frames,
        0 <= frame <= frames,
    ensures
        start <= target ==> start <= blend(start, target, frame, frames) <= target,
        start >= target ==> target <= blend(start, target, frame, frames) <= start,
        blend(start, target, 0, frames) == start,
        blend(start, target, frames, frames) == target,
{
    let d = target - start;
    let way = d * frame;
    vstd::arithmetic::div_mod::lemma_fundamental_div_mod(way, frames);
    vstd::arithmetic::div_mod::lemma_mod_bound(way, frames);
    let q = way / frames;
    assert(frames * q == q * frames) by (nonlinear_arith);
    if d >= 0 {
        assert(0 <= way <= d * frames) by (nonlinear_arith)
            requires
                way == d * frame,
                d >= 0,
                0 <= frame <= frames,
        ;
        assert(0 <= q <= d) by (nonlinear_arith)
            requires
                way == q * frames + way % frames,
                0 <= way % frames < frames,
                0 <= way <= d * frames,
                frames > 0,
        ;
    } else {
        assert(d * frames <= way <= 0) by (nonlinear_arith)
            requires
                way == d * frame,
                d < 0,
                0 <= frame <= frames,
        ;
        assert(d <= q <= 0) by (nonlinear_arith)
            requires
                way == q * frames + way % frames,
                0 <= way % frames < frames,
                d * frames <= way <= 0,
                frames > 0,
        ;
    }
    assert(d * 0 == 0);
    vstd::arithmetic::div_mod::lemma_div_multiples_vanish(d, frames);
    assert(d * frames == frames * d) by (nonlinear_arith);
}

} // verus!
