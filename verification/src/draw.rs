//! What a frame shows, as a list of commands for a renderer. Modes append
//! their commands in the order in which they are to be drawn; later
//! commands cover earlier ones.
use vstd::prelude::*;
use crate::aseprite::Rect;

verus! {

/// Width of the screen that the game draws to, in pixels.
pub const SCREEN_WIDTH: i32 = 320;

/// Height of the screen that the game draws to, in pixels.
pub const SCREEN_HEIGHT: i32 = 176;

/// One character of a text: where its picture lies in the font image and
/// where it goes, relative to the text's place.
#[derive(Clone, Copy, Debug, PartialEq, Eq, Structural)]
pub struct Glyph {
    pub src_x: u32,
    pub src_y: u32,
    pub x: u32,
    pub y: u32,
}

/// One rectangle of a window part: its size, where its picture starts in
/// the part's image, and where it goes, relative to the part's place.
#[derive(Clone, Copy, Debug, PartialEq, Eq, Structural)]
pub struct Patch {
    pub width: u32,
    pub height: u32,
    pub src_x: u32,
    pub src_y: u32,
    pub x: u32,
    pub y: u32,
}

/// The four images that a window is put together from.
#[derive(Clone, Copy, Debug, PartialEq, Eq, Structural)]
pub enum WindowPartKind {
    Center,
    VEdges,
    HEdges,
    Corners,
}

pub enum DrawCommand {
    /// The tile layers of the level, seen from a camera at the given point of the level.
    Level { camera_x: i32, camera_y: i32 },
    /// A rectangle of an image, with its top left corner at the given point of the screen.
    Sprite { image: String, src: Rect, x: i64, y: i64 },
    /// Characters of a font with cells of the given size.
    Text { x: i64, y: i64, char_width: u32, char_height: u32, glyphs: Vec<Glyph> },
    /// A bar that is filled to `value` of `max_value`, in a frame; `parts`
    /// tells how many of its five rectangles fit its width.
    Meter { x: i64, y: i64, width: i32, color: [u8; 3], value: i32, max_value: i32, parts: u8 },
    /// Rectangles of one of the images of a window.
    WindowPart { kind: WindowPartKind, x: i64, y: i64, patches: Vec<Patch> },
}

/// A draw command as contracts see it.
pub enum DrawCommandView {
    Level { camera_x: i32, camera_y: i32 },
    Sprite { image: Seq<char>, src: Rect, x: i64, y: i64 },
    Text { x: i64, y: i64, char_width: u32, char_height: u32, glyphs: Seq<Glyph> },
    Meter { x: i64, y: i64, width: i32, color: Seq<u8>, value: i32, max_value: i32, parts: u8 },
    WindowPart { kind: WindowPartKind, x: i64, y: i64, patches: Seq<Patch> },
}

impl View for DrawCommand {
    type V = DrawCommandView;

    open spec fn view(&self) -> DrawCommandView {
        match *self {
            DrawCommand::Level { camera_x, camera_y } => DrawCommandView::Level {
                camera_x,
                camera_y,
            },
            DrawCommand::Sprite { image, src, x, y } => DrawCommandView::Sprite {
                image: image@,
                src,
                x,
                y,
            },
            DrawCommand::Text { x, y, char_width, char_height, glyphs } => DrawCommandView::Text {
                x,
                y,
                char_width,
                char_height,
                glyphs: glyphs@,
            },
            DrawCommand::Meter {
                x,
                y,
                width,
                color,
                value,
                max_value,
                parts,
            } => DrawCommandView::Meter { x, y, width, color: color@, value, max_value, parts },
            DrawCommand::WindowPart { kind, x, y, patches } => DrawCommandView::WindowPart {
                kind,
                x,
                y,
                patches: patches@,
            },
        }
    }
}

/// The views of a list of commands.
pub open spec fn views(commands: Seq<DrawCommand>) -> Seq<DrawCommandView> {
    commands.map_values(|c: DrawCommand| c@)
}

/// Appending a command appends its view.
pub proof fn lemma_views_push(commands: Seq<DrawCommand>, command: DrawCommand)
    ensures
        views(commands.push(command)) == views(commands).push(command@),
{
    assert(views(commands.push(command)) =~= views(commands).push(command@));
}

/// Appending a list to two lists in a row is appending it to their concatenation.
pub proof fn lemma_concat_assoc<T>(a: Seq<T>, b: Seq<T>, c: Seq<T>)
    ensures
        (a + b) + c == a + (b + c),
{
    assert((a + b) + c =~= a + (b + c));
}

/// Appends one command.
pub fn emit(out: &mut Vec<DrawCommand>, command: DrawCommand)
    ensures
        views(final(out)@) == views(old(out)@).push(command@),
{
    proof {
        lemma_views_push(out@, command);
    }
    out.push(command);
}

} // verus!
