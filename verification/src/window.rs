//! A framed window of any size, put together from a center that repeats,
//! edges that repeat along their length, and corners.
use vstd::prelude::*;
use crate::draw::{emit, views, DrawCommand, DrawCommandView, Patch, WindowPartKind};
use crate::numeric::{max, min};
use crate::resources::WindowTextures;

verus! {

pub struct Window {
    x: i32,
    y: i32,
    px_wid_left: u32,
    px_wid_right: u32,
    px_hei_top: u32,
    px_hei_bottom: u32,
    center: Vec<Patch>,
    h_edges: Vec<Patch>,
    v_edges: Vec<Patch>,
    corners: Vec<Patch>,
}

/// Widths of the left column, the middle and the right column of a window
/// of the given width whose frame columns are `left` and `right` wide: the
/// left column comes first, then the right one, and the middle gets what
/// is left.
pub open spec fn split(size: int, left: int, right: int) -> (int, int, int) {
    let size = max(size, 0);
    (min(size, left), max(size - (left + right), 0), min(max(size - left, 0), right))
}

/// The rectangle of the center, if there is room for one.
pub open spec fn center_patches(w: (int, int, int), h: (int, int, int)) -> Seq<Patch> {
    if w.1 > 0 && h.1 > 0 {
        seq![
            Patch { width: w.1 as u32, height: h.1 as u32, src_x: 0, src_y: 0, x: 0, y: 0 },
        ]
    } else {
        Seq::empty()
    }
}

/// The rectangles of the left and the right edge.
pub open spec fn v_edge_patches(w: (int, int, int), h: (int, int, int), left: int) -> Seq<Patch> {
    if w.0 > 0 && h.1 > 0 {
        let first = Patch {
            width: w.0 as u32,
            height: h.1 as u32,
            src_x: 0,
            src_y: 0,
            x: 0,
            y: 0,
        };
        let second = Patch {
            width: w.2 as u32,
            height: h.1 as u32,
            src_x: left as u32,
            src_y: 0,
            x: (w.0 + w.1) as u32,
            y: 0,
        };
        if w.2 > 0 {
            seq![first, second]
        } else {
            seq![first]
        }
    } else {
        Seq::empty()
    }
}

/// The rectangles of the top and the bottom edge.
pub open spec fn h_edge_patches(w: (int, int, int), h: (int, int, int), top: int) -> Seq<Patch> {
    if w.1 > 0 && h.0 > 0 {
        let first = Patch {
            width: w.1 as u32,
            height: h.0 as u32,
            src_x: 0,
            src_y: 0,
            x: 0,
            y: 0,
        };
        let second = Patch {
            width: w.1 as u32,
            height: h.2 as u32,
            src_x: 0,
            src_y: top as u32,
            x: 0,
            y: (h.0 + h.1) as u32,
        };
        if h.2 > 0 {
            seq![first, second]
        } else {
            seq![first]
        }
    } else {
        Seq::empty()
    }
}

/// The rectangles of the corners: top left first, then those of the other
/// three for which there is room, top right, bottom left, bottom right.
pub open spec fn corner_patches(w: (int, int, int), h: (int, int, int), left: int, top: int) -> Seq<
    Patch,
> {
    if w.0 > 0 || h.0 > 0 {
        let top_left = seq![
            Patch { width: w.0 as u32, height: h.0 as u32, src_x: 0, src_y: 0, x: 0, y: 0 },
        ];
        let top_right = if w.2 > 0 && h.0 > 0 {
            seq![
                Patch {
                    width: w.2 as u32,
                    height: h.0 as u32,
                    src_x: left as u32,
                    src_y: 0,
                    x: (w.0 + w.1) as u32,
                    y: 0,
                },
            ]
        } else {
            Seq::empty()
        };
        let bottom_left = if w.0 > 0 && h.2 > 0 {
            seq![
                Patch {
                    width: w.0 as u32,
                    height: h.2 as u32,
                    src_x: 0,
                    src_y: top as u32,
                    x: 0,
                    y: (h.0 + h.1) as u32,
                },
            ]
        } else {
            Seq::empty()
        };
        let bottom_right = if w.2 > 0 && h.2 > 0 {
            seq![
                Patch {
                    width: w.2 as u32,
                    height: h.2 as u32,
                    src_x: left as u32,
                    src_y: top as u32,
                    x: (w.0 + w.1) as u32,
                    y: (h.0 + h.1) as u32,
                },
            ]
        } else {
            Seq::empty()
        };
        top_left + top_right + bottom_left + bottom_right
    } else {
        Seq::empty()
    }
}

fn split_size(size: i32, left: u32, right: u32) -> (r: (u32, u32, u32))
    ensures
        (r.0 as int, r.1 as int, r.2 as int) == split(size as int, left as int, right as int),
        r.0 + r.1 + r.2 <= i32::MAX,
{
    let size: i64 = if size > 0 {
        size as i64
    } else {
        0
    };
    let left = left as i64;
    let right = right as i64;
    let first = if size < left {
        size
    } else {
        left
    };
    let middle = if size - (left + right) > 0 {
        size - (left + right)
    } else {
        0
    };
    let rest = if size - left > 0 {
        size - left
    } else {
        0
    };
    let last = if rest < right {
        rest
    } else {
        right
    };
    (first as u32, middle as u32, last as u32)
}

impl Window {
    pub closed spec fn offset(&self) -> (i32, i32) {
        (self.x, self.y)
    }

    /// Widths of the left and right column and heights of the top and bottom row of the frame.
    pub closed spec fn frame(&self) -> (u32, u32, u32, u32) {
        (self.px_wid_left, self.px_wid_right, self.px_hei_top, self.px_hei_bottom)
    }

    pub closed spec fn center(&self) -> Seq<Patch> {
        self.center@
    }

    pub closed spec fn h_edges(&self) -> Seq<Patch> {
        self.h_edges@
    }

    pub closed spec fn v_edges(&self) -> Seq<Patch> {
        self.v_edges@
    }

    pub closed spec fn corners(&self) -> Seq<Patch> {
        self.corners@
    }

    /// Whether the window is laid out for the given size.
    pub open spec fn sized(&self, width: i32, height: i32) -> bool {
        let f = self.frame();
        let w = split(width as int, f.0 as int, f.1 as int);
        let h = split(height as int, f.2 as int, f.3 as int);
        &&& self.center() == center_patches(w, h)
        &&& self.v_edges() == v_edge_patches(w, h, f.0 as int)
        &&& self.h_edges() == h_edge_patches(w, h, f.2 as int)
        &&& self.corners() == corner_patches(w, h, f.0 as int, f.2 as int)
    }

    /// Whether the window stands at (`x`, `y`) with a frame of the given
    /// images, laid out for the given size.
    pub open spec fn placed(
        &self,
        textures: &WindowTextures,
        x: i32,
        y: i32,
        width: i32,
        height: i32,
    ) -> bool {
        &&& self.offset() == (x, y)
        &&& self.frame() == (
            textures.px_wid_left,
            (textures.v_edges.width - textures.px_wid_left) as u32,
            textures.px_hei_top,
            (textures.h_edges.height - textures.px_hei_top) as u32,
        )
        &&& self.sized(width, height)
    }

    /// A window of the given size with its top left corner at a place of the screen.
    pub fn new(textures: &WindowTextures, x: i32, y: i32, width: i32, height: i32) -> (w: Window)
        requires
            textures.wf(),
        ensures
            w.placed(textures, x, y, width, height),
            w.offset() == (x, y),
            w.frame() == (
                textures.px_wid_left,
                (textures.v_edges.width - textures.px_wid_left) as u32,
                textures.px_hei_top,
                (textures.h_edges.height - textures.px_hei_top) as u32,
            ),
            w.sized(width, height),
    {
        let mut window = Window {
            x,
            y,
            px_wid_left: textures.px_wid_left,
            px_wid_right: textures.v_edges.width - textures.px_wid_left,
            px_hei_top: textures.px_hei_top,
            px_hei_bottom: textures.h_edges.height - textures.px_hei_top,
            center: Vec::new(),
            h_edges: Vec::new(),
            v_edges: Vec::new(),
            corners: Vec::new(),
        };
        window.resize(width, height);
        window
    }

    pub fn set_offset(&mut self, x: i32, y: i32)
        ensures
            final(self).offset() == (x, y),
            final(self).frame() == old(self).frame(),
            final(self).center() == old(self).center(),
            final(self).h_edges() == old(self).h_edges(),
            final(self).v_edges() == old(self).v_edges(),
            final(self).corners() == old(self).corners(),
    {
        self.x = x;
        self.y = y;
    }

    /// What [`Window::draw`] appends: the center, the vertical edges, the
    /// horizontal edges and the corners, each where it has a rectangle.
    pub open spec fn drawn(&self) -> Seq<DrawCommandView> {
        let x = self.offset().0 as int;
        let y = self.offset().1 as int;
        let left = self.frame().0 as int;
        let top = self.frame().2 as int;
        part_drawn(WindowPartKind::Center, x + left, y + top, self.center()) + part_drawn(
            WindowPartKind::VEdges,
            x,
            y + top,
            self.v_edges(),
        ) + part_drawn(WindowPartKind::HEdges, x + left, y, self.h_edges()) + part_drawn(
            WindowPartKind::Corners,
            x,
            y,
            self.corners(),
        )
    }

    /// Appends the commands that draw the window.
    pub fn draw(&self, out: &mut Vec<DrawCommand>)
        ensures
            views(final(out)@) == views(old(out)@) + self.drawn(),
    {
        let x = self.x as i64;
        let y = self.y as i64;
        let left = self.px_wid_left as i64;
        let top = self.px_hei_top as i64;
        draw_part(out, WindowPartKind::Center, x + left, y + top, &self.center);
        draw_part(out, WindowPartKind::VEdges, x, y + top, &self.v_edges);
        draw_part(out, WindowPartKind::HEdges, x + left, y, &self.h_edges);
        draw_part(out, WindowPartKind::Corners, x, y, &self.corners);
        assert(views(final(out)@) =~= views(old(out)@) + self.drawn());
    }

    /// Lays the window out for a new size. A size below 0 counts as 0.
    pub fn resize(&mut self, width: i32, height: i32)
        ensures
            final(self).offset() == old(self).offset(),
            final(self).frame() == old(self).frame(),
            final(self).sized(width, height),
    {
        let w = split_size(width, self.px_wid_left, self.px_wid_right);
        let h = split_size(height, self.px_hei_top, self.px_hei_bottom);
        let left = self.px_wid_left;
        let top = self.px_hei_top;
        let ghost ws = (w.0 as int, w.1 as int, w.2 as int);
        let ghost hs = (h.0 as int, h.1 as int, h.2 as int);

        let mut center: Vec<Patch> = Vec::new();
        if w.1 > 0 && h.1 > 0 {
            center.push(Patch { width: w.1, height: h.1, src_x: 0, src_y: 0, x: 0, y: 0 });
        }
        assert(center@ =~= center_patches(ws, hs));
        self.center = center;

        let mut v_edges: Vec<Patch> = Vec::new();
        if w.0 > 0 && h.1 > 0 {
            v_edges.push(Patch { width: w.0, height: h.1, src_x: 0, src_y: 0, x: 0, y: 0 });
            if w.2 > 0 {
                v_edges.push(
                    Patch { width: w.2, height: h.1, src_x: left, src_y: 0, x: w.0 + w.1, y: 0 },
                );
            }
        }
        assert(v_edges@ =~= v_edge_patches(ws, hs, left as int));
        self.v_edges = v_edges;

        let mut h_edges: Vec<Patch> = Vec::new();
        if w.1 > 0 && h.0 > 0 {
            h_edges.push(Patch { width: w.1, height: h.0, src_x: 0, src_y: 0, x: 0, y: 0 });
            if h.2 > 0 {
                h_edges.push(
                    Patch { width: w.1, height: h.2, src_x: 0, src_y: top, x: 0, y: h.0 + h.1 },
                );
            }
        }
        assert(h_edges@ =~= h_edge_patches(ws, hs, top as int));
        self.h_edges = h_edges;

        let mut corners: Vec<Patch> = Vec::new();
        if w.0 > 0 || h.0 > 0 {
            corners.push(Patch { width: w.0, height: h.0, src_x: 0, src_y: 0, x: 0, y: 0 });
            if w.2 > 0 && h.0 > 0 {
                corners.push(
                    Patch { width: w.2, height: h.0, src_x: left, src_y: 0, x: w.0 + w.1, y: 0 },
                );
            }
            if w.0 > 0 && h.2 > 0 {
                corners.push(
                    Patch { width: w.0, height: h.2, src_x: 0, src_y: top, x: 0, y: h.0 + h.1 },
                );
            }
            if w.2 > 0 && h.2 > 0 {
                corners.push(
                    Patch {
                        width: w.2,
                        height: h.2,
                        src_x: left,
                        src_y: top,
                        x: w.0 + w.1,
                        y: h.0 + h.1,
                    },
                );
            }
        }
        assert(corners@ =~= corner_patches(ws, hs, left as int, top as int));
        self.corners = corners;
    }
}

/// What drawing one part of a window appends: nothing for a part without rectangles.
pub open spec fn part_drawn(kind: WindowPartKind, x: int, y: int, patches: Seq<Patch>) -> Seq<
    DrawCommandView,
> {
    if patches.len() == 0 {
        Seq::empty()
    } else {
        seq![DrawCommandView::WindowPart { kind, x: x as i64, y: y as i64, patches }]
    }
}

fn draw_part(
    out: &mut Vec<DrawCommand>,
    kind: WindowPartKind,
    x: i64,
    y: i64,
    patches: &Vec<Patch>,
)
    ensures
        views(final(out)@) == views(old(out)@) + part_drawn(kind, x as int, y as int, patches@),
{
    if patches.len() == 0 {
        assert(views(old(out)@) + part_drawn(kind, x as int, y as int, patches@) =~= views(
            old(out)@,
        ));
        return ;
    }
    let mut copy: Vec<Patch> = Vec::new();
    let mut i: usize = 0;
    while i < patches.len()
        invariant
            i <= patches.len(),
            copy@ == patches@.take(i as int),
        decreases patches.len() - i,
    {
        copy.push(patches[i]);
        i = i + 1;
        assert(patches@.take(i as int) == patches@.take(i - 1).push(patches@[i - 1]));
    }
    assert(patches@.take(patches@.len() as int) == patches@);
    emit(out, DrawCommand::WindowPart { kind, x, y, patches: copy });
    assert(views(old(out)@) + part_drawn(kind, x as int, y as int, patches@) =~= views(
        old(out)@,
    ).push(part_drawn(kind, x as int, y as int, patches@)[0]));
}

} // verus!
