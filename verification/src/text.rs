//! Text on screen: the layout of its characters in a fixed-width font, and
//! how many of them are shown while the text is being revealed.
use vstd::prelude::*;
use vstd::string::*;
use crate::async_utils::Poll;
use crate::draw::{emit, views, DrawCommand, DrawCommandView, Glyph};
use crate::resources::Texture;

verus! {

broadcast use vstd::string::group_string_axioms;

/// Number of character cells in a row of the font image.
pub const FONT_COLUMNS: u32 = 16;

/// Number of rows of character cells in the font image.
pub const FONT_ROWS: u32 = 16;

/// The character that marks the chosen entry of a menu.
pub const CURSOR_CHAR: char = '\u{25ba}';

/// Cell of the cursor mark in the font image.
pub const CURSOR_CODE: u32 = 16;

pub struct Text {
    x: i32,
    y: i32,
    width: i32,
    height: i32,
    shown_chars: usize,
    glyphs: Vec<Glyph>,
    char_width: u32,
    char_height: u32,
}

/// Cell of a character in the font image: printable ASCII has its own
/// cells, the cursor mark has one, and a question mark stands for the rest.
pub open spec fn glyph_code(c: char) -> u32 {
    if '!' <= c <= '~' {
        c as u32
    } else if c == CURSOR_CHAR {
        CURSOR_CODE
    } else {
        '?' as u32
    }
}

/// `a + b`, or the largest `u32` where the sum is larger.
pub open spec fn add_capped(a: u32, b: u32) -> u32 {
    if a + b > u32::MAX {
        u32::MAX
    } else {
        (a + b) as u32
    }
}

/// `v`, or the largest `i32` where `v` is larger.
pub open spec fn to_i32_capped(v: u32) -> i32 {
    if v > i32::MAX {
        i32::MAX
    } else {
        v as i32
    }
}

/// A text laid out: its glyphs, the place of the next character, and the
/// size of the box around the glyphs.
pub struct Layout {
    pub glyphs: Seq<Glyph>,
    pub x: u32,
    pub y: u32,
    pub width: i32,
    pub height: i32,
}

/// The layout after one more character. A blank moves on by one cell, a
/// line feed starts a new line, and any other character puts a glyph.
pub open spec fn lay_out_char(l: Layout, c: char, cw: u32, ch: u32) -> Layout {
    if c == ' ' {
        Layout { x: add_capped(l.x, cw), ..l }
    } else if c == '\n' {
        Layout { x: 0, y: add_capped(l.y, ch), ..l }
    } else {
        let code = glyph_code(c);
        let glyph = Glyph {
            src_x: ((code % FONT_COLUMNS) * cw) as u32,
            src_y: ((code / FONT_ROWS) * ch) as u32,
            x: l.x,
            y: l.y,
        };
        let right = to_i32_capped(add_capped(l.x, cw));
        let bottom = to_i32_capped(add_capped(l.y, ch));
        Layout {
            glyphs: l.glyphs.push(glyph),
            x: add_capped(l.x, cw),
            y: l.y,
            width: if l.width > right {
                l.width
            } else {
                right
            },
            height: if l.height > bottom {
                l.height
            } else {
                bottom
            },
        }
    }
}

/// The layout of a string in a font with cells of `cw` by `ch` pixels.
pub open spec fn lay_out(s: Seq<char>, cw: u32, ch: u32) -> Layout
    decreases s.len(),
{
    if s.len() == 0 {
        Layout { glyphs: Seq::empty(), x: 0, y: 0, width: 0, height: 0 }
    } else {
        lay_out_char(lay_out(s.drop_last(), cw, ch), s.last(), cw, ch)
    }
}

/// A layout never has more glyphs than the string has characters.
pub proof fn lemma_glyphs_bounded(s: Seq<char>, cw: u32, ch: u32)
    ensures
        lay_out(s, cw, ch).glyphs.len() <= s.len(),
        lay_out(s, cw, ch).width >= 0,
        lay_out(s, cw, ch).height >= 0,
    decreases s.len(),
{
    if s.len() > 0 {
        lemma_glyphs_bounded(s.drop_last(), cw, ch);
    }
}

fn glyph_code_of(c: char) -> (code: u32)
    ensures
        code == glyph_code(c),
        code <= 126,
{
    if '!' <= c && c <= '~' {
        c as u32
    } else if c == CURSOR_CHAR {
        CURSOR_CODE
    } else {
        '?' as u32
    }
}

fn cap_to_i32(v: u32) -> (r: i32)
    ensures
        r == to_i32_capped(v),
{
    if v > i32::MAX as u32 {
        i32::MAX
    } else {
        v as i32
    }
}

impl Text {
    /// Screen position of the text.
    pub closed spec fn offset(&self) -> (i32, i32) {
        (self.x, self.y)
    }

    /// The glyphs of the text in reading order.
    pub closed spec fn glyphs(&self) -> Seq<Glyph> {
        self.glyphs@
    }

    /// Number of glyphs that are shown, counted from the first.
    pub closed spec fn shown(&self) -> nat {
        self.shown_chars as nat
    }

    /// Size of a character cell of the font.
    pub closed spec fn cell(&self) -> (u32, u32) {
        (self.char_width, self.char_height)
    }

    /// Size of the box around the glyphs.
    pub closed spec fn size(&self) -> (i32, i32) {
        (self.width, self.height)
    }

    pub closed spec fn wf(&self) -> bool {
        &&& self.shown_chars <= self.glyphs@.len()
        &&& self.char_width <= u32::MAX / FONT_COLUMNS
        &&& self.char_height <= u32::MAX / FONT_ROWS
    }

    /// Whether the text holds the layout of `s` and shows `shown` glyphs of it.
    pub open spec fn holds(&self, s: Seq<char>, shown: nat) -> bool {
        let l = lay_out(s, self.cell().0, self.cell().1);
        &&& self.glyphs() == l.glyphs
        &&& self.size() == (l.width, l.height)
        &&& self.shown() == shown
    }

    /// Whether the text holds the layout of `s` and shows all of it.
    pub open spec fn reads(&self, s: Seq<char>) -> bool {
        self.holds(s, lay_out(s, self.cell().0, self.cell().1).glyphs.len())
    }

    /// Whether the text stands at (`x`, `y`) in the cells of `font`, holds
    /// the layout of `s` and shows all of it.
    pub open spec fn written(&self, font: &Texture, x: i32, y: i32, s: Seq<char>) -> bool {
        &&& self.wf()
        &&& self.offset() == (x, y)
        &&& self.cell() == ((font.width / FONT_COLUMNS) as u32, (font.height / FONT_ROWS) as u32)
        &&& self.reads(s)
    }

    /// An empty text at a place of the screen, in a font whose image has
    /// sixteen rows of sixteen cells.
    pub fn new(font: &Texture, x: i32, y: i32) -> (t: Text)
        ensures
            t.wf(),
            t.offset() == (x, y),
            t.cell() == ((font.width / FONT_COLUMNS) as u32, (font.height / FONT_ROWS) as u32),
            t.holds(Seq::empty(), 0),
            t.written(font, x, y, Seq::empty()),
    {
        Text {
            x,
            y,
            width: 0,
            height: 0,
            shown_chars: 0,
            glyphs: Vec::new(),
            char_width: font.width / FONT_COLUMNS,
            char_height: font.height / FONT_ROWS,
        }
    }

    /// A text that shows all of `s`.
    pub fn from_str(font: &Texture, x: i32, y: i32, s: &str) -> (t: Text)
        ensures
            t.wf(),
            t.offset() == (x, y),
            t.cell() == ((font.width / FONT_COLUMNS) as u32, (font.height / FONT_ROWS) as u32),
            t.holds(s@, lay_out(s@, t.cell().0, t.cell().1).glyphs.len()),
            t.written(font, x, y, s@),
    {
        let mut text = Text::new(font, x, y);
        text.set_text(s);
        text
    }

    pub fn all_chars_shown(&self) -> (b: bool)
        requires
            self.wf(),
        ensures
            b == (self.shown() == self.glyphs().len()),
            self.shown() <= self.glyphs().len(),
    {
        self.shown_chars >= self.glyphs.len()
    }

    /// Appends the command that draws the shown glyphs; nothing where none is shown.
    pub fn draw(&self, out: &mut Vec<DrawCommand>)
        requires
            self.wf(),
        ensures
            views(final(out)@) == views(old(out)@) + self.drawn(),
    {
        if self.shown_chars == 0 {
            assert(views(old(out)@) + self.drawn() =~= views(old(out)@));
            return ;
        }
        let mut glyphs: Vec<Glyph> = Vec::new();
        let mut i: usize = 0;
        while i < self.shown_chars
            invariant
                i <= self.shown_chars <= self.glyphs@.len(),
                glyphs@ == self.glyphs@.take(i as int),
            decreases self.shown_chars - i,
        {
            glyphs.push(self.glyphs[i]);
            i = i + 1;
            assert(self.glyphs@.take(i as int) == self.glyphs@.take(i - 1).push(
                self.glyphs@[i - 1],
            ));
        }
        emit(
            out,
            DrawCommand::Text {
                x: self.x as i64,
                y: self.y as i64,
                char_width: self.char_width,
                char_height: self.char_height,
                glyphs,
            },
        );
        assert(views(old(out)@) + self.drawn() =~= views(old(out)@).push(self.drawn()[0]));
    }

    /// What [`Text::draw`] appends.
    pub open spec fn drawn(&self) -> Seq<DrawCommandView> {
        if self.shown() == 0 {
            Seq::empty()
        } else {
            seq![
                DrawCommandView::Text {
                    x: self.offset().0 as i64,
                    y: self.offset().1 as i64,
                    char_width: self.cell().0,
                    char_height: self.cell().1,
                    glyphs: self.glyphs().take(self.shown() as int),
                },
            ]
        }
    }

    /// Number of glyphs that are shown.
    pub fn shown_chars(&self) -> (n: usize)
        ensures
            n == self.shown(),
    {
        self.shown_chars
    }

    /// Number of glyphs.
    pub fn glyph_count(&self) -> (n: usize)
        ensures
            n == self.glyphs().len(),
    {
        self.glyphs.len()
    }

    pub fn height(&self) -> (h: i32)
        ensures
            h == self.size().1,
    {
        self.height
    }

    pub fn width(&self) -> (w: i32)
        ensures
            w == self.size().0,
    {
        self.width
    }

    pub fn hide_all_chars(&mut self)
        requires
            old(self).wf(),
        ensures
            final(self).wf(),
            final(self).shown() == 0,
            final(self).same_text(old(self)),
    {
        self.shown_chars = 0;
    }

    pub fn show_all_chars(&mut self)
        requires
            old(self).wf(),
        ensures
            final(self).wf(),
            final(self).shown() == final(self).glyphs().len(),
            final(self).same_text(old(self)),
    {
        self.shown_chars = self.glyphs.len();
    }

    /// Everything but the number of glyphs shown is the same.
    pub open spec fn same_text(&self, other: &Text) -> bool {
        &&& self.offset() == other.offset()
        &&& self.glyphs() == other.glyphs()
        &&& self.cell() == other.cell()
        &&& self.size() == other.size()
    }

    /// One step of revealing the text glyph by glyph. The first step hides
    /// all glyphs, each later one shows one glyph more. A step reports
    /// ready once all glyphs are shown, and pending before.
    ///
    /// `started` tells whether the first step was taken; it is true after
    /// the call.
    pub fn reveal_step(&mut self, started: &mut bool) -> (r: Poll<()>)
        requires
            old(self).wf(),
        ensures
            final(self).wf(),
            final(self).same_text(old(self)),
            *final(started),
            final(self).shown() == if !*old(started) {
                0
            } else if old(self).shown() < old(self).glyphs().len() {
                old(self).shown() + 1
            } else {
                old(self).shown()
            },
            r is Ready == (final(self).shown() == final(self).glyphs().len()),
    {
        if !*started {
            self.hide_all_chars();
            *started = true;
        } else {
            self.show_one_char();
        }
        if self.all_chars_shown() {
            Poll::Ready(())
        } else {
            Poll::Pending
        }
    }

    pub fn set_offset(&mut self, x: i32, y: i32)
        ensures
            final(self).offset() == (x, y),
            final(self).glyphs() == old(self).glyphs(),
            final(self).cell() == old(self).cell(),
            final(self).size() == old(self).size(),
            final(self).shown() == old(self).shown(),
            old(self).wf() ==> final(self).wf(),
    {
        self.x = x;
        self.y = y;
    }

    /// Replaces the text by `s` and shows all of it.
    pub fn set_text(&mut self, s: &str)
        requires
            old(self).wf(),
        ensures
            final(self).wf(),
            final(self).offset() == old(self).offset(),
            final(self).cell() == old(self).cell(),
            final(self).holds(s@, lay_out(s@, old(self).cell().0, old(self).cell().1).glyphs.len()),
    {
        let cw = self.char_width;
        let ch = self.char_height;
        let mut glyphs: Vec<Glyph> = Vec::new();
        let mut width: i32 = 0;
        let mut height: i32 = 0;
        let mut x: u32 = 0;
        let mut y: u32 = 0;
        for c in iter: s.chars()
            invariant
                iter.seq() == s@,
                cw <= u32::MAX / FONT_COLUMNS,
                ch <= u32::MAX / FONT_ROWS,
                lay_out(s@.take(iter.index() as int), cw, ch) == (Layout {
                    glyphs: glyphs@,
                    x,
                    y,
                    width,
                    height,
                }),
        {
            proof {
                let t = s@.take(iter.index() + 1);
                assert(t.drop_last() == s@.take(iter.index() as int));
                assert(t.last() == c);
            }
            if c == ' ' {
                x = x.saturating_add(cw);
            } else if c == '\n' {
                x = 0;
                y = y.saturating_add(ch);
            } else {
                let code = glyph_code_of(c);
                assert((code % FONT_COLUMNS) * cw <= u32::MAX) by (nonlinear_arith)
                    requires
                        cw <= u32::MAX / 16,
                        code % 16 < 16,
                ;
                assert((code / FONT_ROWS) * ch <= u32::MAX) by (nonlinear_arith)
                    requires
                        ch <= u32::MAX / 16,
                        code / 16 < 16,
                ;
                glyphs.push(
                    Glyph {
                        src_x: (code % FONT_COLUMNS) * cw,
                        src_y: (code / FONT_ROWS) * ch,
                        x,
                        y,
                    },
                );
                let right = cap_to_i32(x.saturating_add(cw));
                let bottom = cap_to_i32(y.saturating_add(ch));
                if right > width {
                    width = right;
                }
                if bottom > height {
                    height = bottom;
                }
                x = x.saturating_add(cw);
            }
        }
        assert(s@.take(s@.len() as int) == s@);
        self.shown_chars = glyphs.len();
        self.glyphs = glyphs;
        self.width = width;
        self.height = height;
    }

    /// Shows one glyph more, where one is hidden.
    pub fn show_one_char(&mut self)
        requires
            old(self).wf(),
        ensures
            final(self).wf(),
            final(self).same_text(old(self)),
            final(self).shown() == if old(self).shown() < old(self).glyphs().len() {
                old(self).shown() + 1
            } else {
                old(self).shown()
            },
    {
        if self.shown_chars < self.glyphs.len() {
            self.shown_chars = self.shown_chars + 1;
        }
    }
}

} // verus!
