//! Animated sprites: which frame of which animation is showing, and how
//! the frames follow each other in time.
use vstd::prelude::*;
use crate::aseprite::{Rect, SpriteSheet};
use crate::direction::Direction;
use crate::draw::{emit, views, DrawCommand, DrawCommandView};
use crate::strings::str_eq;

verus! {

/// Time that one tick adds to an animation, in sixtieths of a millisecond:
/// a sixtieth of a second.
pub const TICK_TIME: u64 = 1000;

/// Order in which an animation runs through its frames.
#[derive(Clone, Copy, Debug, PartialEq, Eq, Structural)]
pub enum TagDirection {
    Forward,
    Reverse,
    PingPong,
    PingPongReverse,
}

/// One frame of a sprite: where it lies in the image and how long it shows.
#[derive(Clone, Copy, Debug, PartialEq, Eq, Structural)]
pub struct SpriteFrame {
    pub rect: Rect,
    pub duration: u32,
}

/// One animation of a sprite.
pub struct SpriteTag {
    pub name: String,
    pub from: usize,
    pub to: usize,
    pub direction: TagDirection,
}

pub struct Sprite {
    image: String,
    frames: Vec<SpriteFrame>,
    tags: Vec<SpriteTag>,
    tag: usize,
    frame: usize,
    t: u64,
    next_frame_forward: bool,
}

/// Where an animation stands: all that a tick changes.
pub struct Playback {
    pub tag: int,
    pub frame: int,
    /// Time spent on the current frame, in sixtieths of a millisecond.
    pub t: int,
    pub forward: bool,
}

/// The direction that a sprite sheet names, `None` for a name that is none.
pub open spec fn direction_named(s: Seq<char>) -> Option<TagDirection> {
    if s == "forward"@ {
        Some(TagDirection::Forward)
    } else if s == "reverse"@ {
        Some(TagDirection::Reverse)
    } else if s == "pingpong"@ {
        Some(TagDirection::PingPong)
    } else if s == "pingpong_reverse"@ {
        Some(TagDirection::PingPongReverse)
    } else {
        None
    }
}

/// The name of the animation of walking in a direction.
pub open spec fn walk_tag(dir: Direction) -> Seq<char> {
    match dir {
        Direction::North => "walk_n"@,
        Direction::East => "walk_e"@,
        Direction::South => "walk_s"@,
        Direction::West => "walk_w"@,
    }
}

/// The name of the animation of standing that takes the place of an
/// animation of walking; `None` for any other animation.
pub open spec fn face_tag(walk: Seq<char>) -> Option<Seq<char>> {
    if walk == "walk_n"@ {
        Some("face_n"@)
    } else if walk == "walk_e"@ {
        Some("face_e"@)
    } else if walk == "walk_s"@ {
        Some("face_s"@)
    } else if walk == "walk_w"@ {
        Some("face_w"@)
    } else {
        None
    }
}

/// A sprite sheet that a sprite can be made of: it has a frame and an
/// animation, every animation runs over frames that exist, and every
/// direction is one of the four known ones.
pub open spec fn usable_sheet(sheet: &SpriteSheet) -> bool {
    &&& sheet.frames@.len() > 0
    &&& sheet.meta.frame_tags@.len() > 0
    &&& forall|i: int|
        0 <= i < sheet.meta.frame_tags@.len() ==> {
            let tag = #[trigger] sheet.meta.frame_tags@[i];
            &&& tag.from <= tag.to < sheet.frames@.len()
            &&& direction_named(tag.direction@) is Some
        }
}

/// Position of the first animation called `name`, or the number of
/// animations where none is.
pub open spec fn find_tag(tags: Seq<SpriteTag>, name: Seq<char>) -> int
    decreases tags.len(),
{
    if tags.len() == 0 {
        0
    } else if tags[0].name@ == name {
        0
    } else {
        1 + find_tag(tags.drop_first(), name)
    }
}

pub proof fn lemma_find_tag(tags: Seq<SpriteTag>, name: Seq<char>)
    ensures
        0 <= find_tag(tags, name) <= tags.len(),
        find_tag(tags, name) < tags.len() ==> tags[find_tag(tags, name)].name@ == name,
        forall|j: int| 0 <= j < find_tag(tags, name) ==> (#[trigger] tags[j]).name@ != name,
    decreases tags.len(),
{
    if tags.len() > 0 && tags[0].name@ != name {
        lemma_find_tag(tags.drop_first(), name);
        assert forall|j: int| 0 <= j < find_tag(tags, name) implies (#[trigger] tags[j]).name@
            != name by {
            if j > 0 {
                assert(tags[j] == tags.drop_first()[j - 1]);
            }
        }
    }
}

fn parse_direction(s: &str) -> (d: Option<TagDirection>)
    ensures
        d == direction_named(s@),
{
    if str_eq(s, "forward") {
        Some(TagDirection::Forward)
    } else if str_eq(s, "reverse") {
        Some(TagDirection::Reverse)
    } else if str_eq(s, "pingpong") {
        Some(TagDirection::PingPong)
    } else if str_eq(s, "pingpong_reverse") {
        Some(TagDirection::PingPongReverse)
    } else {
        None
    }
}

impl Sprite {
    pub closed spec fn wf(&self) -> bool {
        &&& self.frames@.len() > 0
        &&& self.tags@.len() > 0
        &&& self.tag < self.tags@.len()
        &&& self.frame < self.frames@.len()
        &&& forall|i: int|
            0 <= i < self.tags@.len() ==> (#[trigger] self.tags@[i]).from <= self.tags@[i].to
                < self.frames@.len()
    }

    /// Name of the image that holds the frames.
    pub closed spec fn image(&self) -> Seq<char> {
        self.image@
    }

    pub closed spec fn frames(&self) -> Seq<SpriteFrame> {
        self.frames@
    }

    pub closed spec fn tags(&self) -> Seq<SpriteTag> {
        self.tags@
    }

    pub closed spec fn playback(&self) -> Playback {
        Playback {
            tag: self.tag as int,
            frame: self.frame as int,
            t: self.t as int,
            forward: self.next_frame_forward,
        }
    }

    /// Everything about the sprite that no tick changes.
    pub open spec fn same_sheet(&self, other: &Sprite) -> bool {
        &&& self.image() == other.image()
        &&& self.frames() == other.frames()
        &&& self.tags() == other.tags()
    }

    /// The sprite has the image, the frames and the animations of the sheet.
    pub open spec fn made_of(&self, sheet: &SpriteSheet) -> bool {
        &&& self.wf()
        &&& self.image() == sheet.meta.image@
        &&& self.frames().len() == sheet.frames@.len()
        &&& forall|i: int|
            0 <= i < sheet.frames@.len() ==> (#[trigger] self.frames()[i]).rect
                == sheet.frames@[i].frame && self.frames()[i].duration == sheet.frames@[i].duration
        &&& self.tags().len() == sheet.meta.frame_tags@.len()
        &&& forall|i: int|
            0 <= i < sheet.meta.frame_tags@.len() ==> {
                let tag = #[trigger] self.tags()[i];
                let from = sheet.meta.frame_tags@[i];
                &&& tag.name@ == from.name@
                &&& tag.from == from.from
                &&& tag.to == from.to
                &&& Some(tag.direction) == direction_named(from.direction@)
            }
    }

    /// A sprite made of a sheet: it shows the first frame and is set to
    /// the first animation. `None` for a sheet that cannot be used.
    pub fn new(sheet: &SpriteSheet) -> (r: Option<Sprite>)
        ensures
            r is Some == usable_sheet(sheet),
            r matches Some(s) ==> {
                &&& s.made_of(sheet)
                &&& s.wf()
                &&& s.image() == sheet.meta.image@
                &&& s.playback() == (Playback { tag: 0, frame: 0, t: 0, forward: true })
            },
    {
        if sheet.frames.len() == 0 || sheet.meta.frame_tags.len() == 0 {
            return None;
        }
        let mut frames: Vec<SpriteFrame> = Vec::new();
        let mut i: usize = 0;
        while i < sheet.frames.len()
            invariant
                i <= sheet.frames.len(),
                frames@.len() == i,
                forall|j: int|
                    0 <= j < i ==> (#[trigger] frames@[j]).rect == sheet.frames@[j].frame
                        && frames@[j].duration == sheet.frames@[j].duration,
            decreases sheet.frames.len() - i,
        {
            frames.push(SpriteFrame { rect: sheet.frames[i].frame, duration: sheet.frames[i].duration });
            i = i + 1;
        }
        let mut tags: Vec<SpriteTag> = Vec::new();
        let mut k: usize = 0;
        while k < sheet.meta.frame_tags.len()
            invariant
                k <= sheet.meta.frame_tags.len(),
                tags@.len() == k,
                forall|j: int|
                    0 <= j < k ==> {
                        let tag = #[trigger] tags@[j];
                        let from = sheet.meta.frame_tags@[j];
                        &&& tag.name@ == from.name@
                        &&& tag.from == from.from
                        &&& tag.to == from.to
                        &&& Some(tag.direction) == direction_named(from.direction@)
                        &&& from.from <= from.to < sheet.frames@.len()
                    },
            decreases sheet.meta.frame_tags.len() - k,
        {
            let from = &sheet.meta.frame_tags[k];
            let direction = match parse_direction(from.direction.as_str()) {
                Some(d) => d,
                None => {
                    return None;
                },
            };
            if from.from > from.to || from.to >= sheet.frames.len() {
                return None;
            }
            tags.push(
                SpriteTag { name: from.name.clone(), from: from.from, to: from.to, direction },
            );
            k = k + 1;
        }
        proof {
            assert forall|j: int| 0 <= j < sheet.meta.frame_tags@.len() implies {
                let tag = #[trigger] sheet.meta.frame_tags@[j];
                &&& tag.from <= tag.to < sheet.frames@.len()
                &&& direction_named(tag.direction@) is Some
            } by {
                let t = tags@[j];
            }
        }
        Some(
            Sprite {
                image: sheet.meta.image.clone(),
                frames,
                tags,
                tag: 0,
                frame: 0,
                t: 0,
                next_frame_forward: true,
            },
        )
    }

    /// The frame that follows `frame` in the animation `tag` and the way
    /// the animation runs from there.
    ///
    /// Running forward an animation steps up to its last frame. There a
    /// forward animation starts over and a ping-pong animation turns. One
    /// that runs in reverse stays where it is for as long as it is asked
    /// to go forward. Running backward is the mirror image of this.
    pub open spec fn next_frame(tag: SpriteTag, frame: int, forward: bool) -> (int, bool) {
        if forward {
            if frame < tag.to {
                (frame + 1, true)
            } else {
                match tag.direction {
                    TagDirection::Forward => (tag.from as int, true),
                    TagDirection::PingPong | TagDirection::PingPongReverse => (
                        if frame - 1 > tag.from {
                            frame - 1
                        } else {
                            tag.from as int
                        },
                        false,
                    ),
                    TagDirection::Reverse => (frame, true),
                }
            }
        } else {
            if frame > tag.from {
                (frame - 1, false)
            } else {
                match tag.direction {
                    TagDirection::Reverse => (tag.to as int, false),
                    TagDirection::PingPong | TagDirection::PingPongReverse => (
                        if frame + 1 < tag.to {
                            frame + 1
                        } else {
                            tag.to as int
                        },
                        true,
                    ),
                    TagDirection::Forward => (frame, false),
                }
            }
        }
    }

    /// The playback one tick later.
    pub open spec fn after_tick(&self) -> Playback {
        self.tick_at(self.playback())
    }

    /// What a sprite of this sheet that plays `p` plays one tick later.
    pub open spec fn tick_at(&self, p: Playback) -> Playback {
        let due = self.frames()[p.frame].duration * 60;
        let t = if p.t + TICK_TIME > u64::MAX {
            u64::MAX as int
        } else {
            p.t + TICK_TIME
        };
        if t >= due {
            let next = Sprite::next_frame(self.tags()[p.tag], p.frame, p.forward);
            Playback { tag: p.tag, frame: next.0, t: t - due, forward: next.1 }
        } else {
            Playback { t, ..p }
        }
    }

    /// Lets one tick of time pass: once the current frame has been shown
    /// for its duration the next frame of the animation takes its place.
    pub fn animate(&mut self)
        requires
            old(self).wf(),
        ensures
            final(self).wf(),
            final(self).same_sheet(old(self)),
            final(self).playback() == old(self).after_tick(),
    {
        let duration: u64 = self.frames[self.frame].duration as u64 * 60;
        self.t = self.t.saturating_add(TICK_TIME);
        if self.t >= duration {
            self.t = self.t - duration;
            let from = self.tags[self.tag].from;
            let to = self.tags[self.tag].to;
            let direction = self.tags[self.tag].direction;
            if self.next_frame_forward {
                if self.frame < to {
                    self.frame = self.frame + 1;
                } else {
                    match direction {
                        TagDirection::Forward => {
                            self.frame = from;
                        },
                        TagDirection::PingPong | TagDirection::PingPongReverse => {
                            let back = self.frame.saturating_sub(1);
                            self.frame = if back > from {
                                back
                            } else {
                                from
                            };
                            self.next_frame_forward = false;
                        },
                        TagDirection::Reverse => {},
                    }
                }
            } else if self.frame > from {
                self.frame = self.frame - 1;
            } else {
                match direction {
                    TagDirection::Reverse => {
                        self.frame = to;
                    },
                    TagDirection::PingPong | TagDirection::PingPongReverse => {
                        let ahead = self.frame.saturating_add(1);
                        self.frame = if ahead < to {
                            ahead
                        } else {
                            to
                        };
                        self.next_frame_forward = true;
                    },
                    TagDirection::Forward => {},
                }
            }
        }
    }

    /// What [`Sprite::draw`] appends: the current frame of the sprite at
    /// a place of the screen.
    pub open spec fn drawn(&self, x: i32, y: i32) -> Seq<DrawCommandView> {
        seq![
            DrawCommandView::Sprite {
                image: self.image(),
                src: self.frames()[self.playback().frame].rect,
                x: x as i64,
                y: y as i64,
            },
        ]
    }

    pub fn draw(&self, out: &mut Vec<DrawCommand>, x: i32, y: i32)
        requires
            self.wf(),
        ensures
            views(final(out)@) == views(old(out)@) + self.drawn(x, y),
    {
        emit(
            out,
            DrawCommand::Sprite {
                image: self.image_name().to_owned(),
                src: self.frame_rect(),
                x: x as i64,
                y: y as i64,
            },
        );
        assert(views(old(out)@) + self.drawn(x, y) =~= views(old(out)@).push(self.drawn(x, y)[0]));
    }

    /// Where the current frame lies in the image.
    pub fn frame_rect(&self) -> (r: Rect)
        requires
            self.wf(),
        ensures
            r == self.frames()[self.playback().frame].rect,
    {
        self.frames[self.frame].rect
    }

    /// Position of the frame that is showing.
    pub fn frame_index(&self) -> (i: usize)
        ensures
            i == self.playback().frame,
    {
        self.frame
    }

    /// Position of the animation that the sprite is set to.
    pub fn tag_index(&self) -> (i: usize)
        ensures
            i == self.playback().tag,
    {
        self.tag
    }

    /// Name of the image that the frames lie in.
    pub fn image_name(&self) -> (s: &str)
        ensures
            s@ == self.image(),
    {
        self.image.as_str()
    }

    /// The playback after a change to the animation called `tag`: from
    /// the start of that animation, or unchanged where the sprite is set to
    /// it already.
    pub open spec fn started(&self, tag: Seq<char>) -> Playback {
        self.started_at(self.playback(), tag)
    }

    /// What a sprite of this sheet that plays `p` plays once the animation
    /// called `tag` is started: it goes on where it plays that animation
    /// already, and else shows the first frame of it.
    pub open spec fn started_at(&self, p: Playback, tag: Seq<char>) -> Playback {
        let i = find_tag(self.tags(), tag);
        if i == p.tag {
            p
        } else {
            Playback { tag: i, frame: self.tags()[i].from as int, t: 0, forward: true }
        }
    }

    /// What a sprite of this sheet that plays `p` plays after a change to
    /// the animation called `tag` was asked for: nothing else where the
    /// animation cannot be started.
    pub open spec fn start_at(&self, p: Playback, tag: Seq<char>) -> Playback {
        if self.can_start(tag) {
            self.started_at(p, tag)
        } else {
            p
        }
    }

    /// What a sprite of this sheet that plays `p` plays after it was told
    /// to stop walking: an animation of walking gives way to the one of
    /// standing that faces the same way, where that can be started.
    pub open spec fn stop_at(&self, p: Playback) -> Playback {
        match face_tag(self.tags()[p.tag].name@) {
            Some(face) => self.start_at(p, face),
            None => p,
        }
    }

    /// An animation called `tag` exists and runs forward or as ping-pong.
    pub open spec fn can_start(&self, tag: Seq<char>) -> bool {
        let i = find_tag(self.tags(), tag);
        &&& i < self.tags().len()
        &&& (self.tags()[i].direction == TagDirection::Forward || self.tags()[i].direction
            == TagDirection::PingPong)
    }

    /// Changes to the animation called `tag` and reports whether it could:
    /// the animation must exist and run forward or as ping-pong. A sprite
    /// that is set to the animation already goes on with it.
    pub fn start_animation(&mut self, tag: &str) -> (started: bool)
        requires
            old(self).wf(),
        ensures
            final(self).wf(),
            final(self).same_sheet(old(self)),
            started == old(self).can_start(tag@),
            started ==> final(self).playback() == old(self).started(tag@),
            !started ==> final(self).playback() == old(self).playback(),
            final(self).playback() == old(self).start_at(old(self).playback(), tag@),
    {
        let mut i: usize = 0;
        while i < self.tags.len() && !str_eq(self.tags[i].name.as_str(), tag)
            invariant
                i <= self.tags@.len(),
                forall|j: int| 0 <= j < i ==> (#[trigger] self.tags@[j]).name@ != tag@,
            decreases self.tags@.len() - i,
        {
            i = i + 1;
        }
        proof {
            lemma_find_tag(self.tags@, tag@);
            let f = find_tag(self.tags@, tag@);
            if f < i {
                assert(self.tags@[f].name@ == tag@);
            }
            if i < f {
                assert(self.tags@[i as int].name@ != tag@);
            }
        }
        if i >= self.tags.len() {
            return false;
        }
        match self.tags[i].direction {
            TagDirection::Forward | TagDirection::PingPong => {},
            _ => {
                return false;
            },
        }
        if i != self.tag {
            self.tag = i;
            self.frame = self.tags[i].from;
            self.t = 0;
            self.next_frame_forward = true;
        }
        true
    }

    /// Changes to the animation of walking in a direction.
    pub fn start_walk_animation(&mut self, dir: Direction) -> (started: bool)
        requires
            old(self).wf(),
        ensures
            final(self).wf(),
            final(self).same_sheet(old(self)),
            started == old(self).can_start(walk_tag(dir)),
            started ==> final(self).playback() == old(self).started(walk_tag(dir)),
            !started ==> final(self).playback() == old(self).playback(),
            final(self).playback() == old(self).start_at(old(self).playback(), walk_tag(dir)),
    {
        self.start_animation(
            match dir {
                Direction::North => "walk_n",
                Direction::East => "walk_e",
                Direction::South => "walk_s",
                Direction::West => "walk_w",
            },
        )
    }

    /// Changes from an animation of walking to the one of standing that
    /// faces the same way; any other animation goes on.
    pub fn stop_walk_animation(&mut self) -> (ok: bool)
        requires
            old(self).wf(),
        ensures
            final(self).wf(),
            final(self).same_sheet(old(self)),
            ok == match face_tag(old(self).tags()[old(self).playback().tag].name@) {
                Some(face) => old(self).can_start(face),
                None => true,
            },
            final(self).playback() == old(self).stop_at(old(self).playback()),
    {
        let name = self.tags[self.tag].name.as_str();
        let face_tag: Option<&'static str> = if str_eq(name, "walk_n") {
            Some("face_n")
        } else if str_eq(name, "walk_e") {
            Some("face_e")
        } else if str_eq(name, "walk_s") {
            Some("face_s")
        } else if str_eq(name, "walk_w") {
            Some("face_w")
        } else {
            None
        };
        match face_tag {
            Some(face) => self.start_animation(face),
            None => true,
        }
    }
}

} // verus!
