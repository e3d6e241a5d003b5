//! A bar that shows a value as a part of its largest value.
use vstd::prelude::*;
use crate::draw::{emit, views, DrawCommand, DrawCommandView};
use crate::numeric::{clamp, max};

verus! {

pub struct Meter {
    x: i32,
    y: i32,
    width: i32,
    color: [u8; 3],
    max_value: i32,
    value: i32,
}

impl Meter {
    pub closed spec fn offset(&self) -> (i32, i32) {
        (self.x, self.y)
    }

    pub closed spec fn width(&self) -> i32 {
        self.width
    }

    pub closed spec fn color(&self) -> Seq<u8> {
        self.color@
    }

    /// The value that fills the bar; it is at least 1.
    pub closed spec fn max_value(&self) -> i32 {
        self.max_value
    }

    /// The value shown; it lies between 0 and the largest value.
    pub closed spec fn value(&self) -> i32 {
        self.value
    }

    pub closed spec fn wf(&self) -> bool {
        &&& self.max_value >= 1
        &&& 0 <= self.value <= self.max_value
    }

    /// The largest value of a sound bar is at least 1, and the value shown
    /// lies between 0 and the largest value.
    pub proof fn lemma_bounds(&self)
        requires
            self.wf(),
        ensures
            self.max_value() >= 1,
            0 <= self.value() <= self.max_value(),
    {
    }

    /// Whether the bar stands at (`x`, `y`) with the given width and
    /// color, and shows `value` of `max_value`.
    pub open spec fn set_up(
        &self,
        x: i32,
        y: i32,
        width: i32,
        color: Seq<u8>,
        value: int,
        max_value: int,
    ) -> bool {
        &&& self.wf()
        &&& self.offset() == (x, y)
        &&& self.width() == width
        &&& self.color() == color
        &&& self.value() == value
        &&& self.max_value() == max_value
    }

    /// A bar that shows its largest value.
    pub fn new(x: i32, y: i32, width: i32, color: [u8; 3], max_value: i32) -> (m: Meter)
        ensures
            m.wf(),
            m.offset() == (x, y),
            m.width() == width,
            m.color() == color@,
            m.max_value() == max(max_value as int, 1),
            m.value() == clamp(max_value as int, 0, max(max_value as int, 1)),
    {
        let mut meter = Meter { x, y, width, color, max_value: 1, value: 1 };
        meter.set_value_and_max(max_value, max_value);
        meter
    }

    /// The value shown and the value that fills the bar.
    pub fn get(&self) -> (v: (i32, i32))
        ensures
            v == (self.value(), self.max_value()),
    {
        (self.value, self.max_value)
    }

    /// Number of the five rectangles of the bar that fit its width: all of
    /// them from three pixels on, the two ends at two pixels, one end at
    /// one pixel, none below.
    pub open spec fn parts(&self) -> u8 {
        if self.width() >= 3 {
            5
        } else if self.width() >= 2 {
            2
        } else if self.width() >= 1 {
            1
        } else {
            0
        }
    }

    /// What [`Meter::draw`] appends.
    pub open spec fn drawn(&self) -> Seq<DrawCommandView> {
        if self.parts() == 0 {
            Seq::empty()
        } else {
            seq![
                DrawCommandView::Meter {
                    x: self.offset().0 as i64,
                    y: self.offset().1 as i64,
                    width: self.width(),
                    color: self.color(),
                    value: self.value(),
                    max_value: self.max_value(),
                    parts: self.parts(),
                },
            ]
        }
    }

    /// Appends the command that draws the bar; nothing for a bar without width.
    pub fn draw(&self, out: &mut Vec<DrawCommand>)
        ensures
            views(final(out)@) == views(old(out)@) + self.drawn(),
    {
        let parts: u8 = if self.width >= 3 {
            5
        } else if self.width >= 2 {
            2
        } else if self.width >= 1 {
            1
        } else {
            0
        };
        if parts == 0 {
            assert(views(old(out)@) + self.drawn() =~= views(old(out)@));
            return ;
        }
        emit(
            out,
            DrawCommand::Meter {
                x: self.x as i64,
                y: self.y as i64,
                width: self.width,
                color: self.color,
                value: self.value,
                max_value: self.max_value,
                parts,
            },
        );
        assert(views(old(out)@) + self.drawn() =~= views(old(out)@).push(self.drawn()[0]));
    }

    /// Shows `value`, kept between 0 and the largest value.
    pub fn set_value(&mut self, value: i32)
        requires
            old(self).wf(),
        ensures
            final(self).wf(),
            final(self).max_value() == old(self).max_value(),
            final(self).value() == clamp(value as int, 0, old(self).max_value() as int),
            final(self).same_place(old(self)),
    {
        let max_value = self.max_value;
        self.set_value_and_max(value, max_value);
    }

    /// Place, width and color are the same.
    pub open spec fn same_place(&self, other: &Meter) -> bool {
        &&& self.offset() == other.offset()
        &&& self.width() == other.width()
        &&& self.color() == other.color()
    }

    /// Sets the largest value, which is at least 1, and shows `value`,
    /// kept between 0 and the largest value.
    pub fn set_value_and_max(&mut self, value: i32, max_value: i32)
        ensures
            final(self).wf(),
            final(self).max_value() == max(max_value as int, 1),
            final(self).value() == clamp(value as int, 0, max(max_value as int, 1)),
            final(self).same_place(old(self)),
    {
        self.max_value = if max_value > 1 {
            max_value
        } else {
            1
        };
        self.value = if value < 0 {
            0
        } else if value > self.max_value {
            self.max_value
        } else {
            value
        };
    }
}

} // verus!
