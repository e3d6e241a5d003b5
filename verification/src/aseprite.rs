//! Sprite sheet descriptions as the Aseprite editor exports them.
use vstd::prelude::*;

verus! {

pub struct SpriteSheet {
    pub frames: Vec<Frame>,
    pub meta: Meta,
}

pub struct Frame {
    pub filename: String,
    pub frame: Rect,
    pub rotated: bool,
    pub trimmed: bool,
    pub sprite_source_size: Rect,
    pub source_size: Size,
    /// Time that the frame is shown for, in milliseconds.
    pub duration: u32,
}

#[derive(Clone, Copy, Debug, PartialEq, Eq, Structural)]
pub struct Rect {
    pub x: u16,
    pub y: u16,
    pub w: u16,
    pub h: u16,
}

#[derive(Clone, Copy, Debug, PartialEq, Eq, Structural)]
pub struct Size {
    pub w: u16,
    pub h: u16,
}

pub struct Meta {
    pub app: String,
    pub version: String,
    pub image: String,
    pub format: String,
    pub size: Size,
    pub scale: String,
    pub frame_tags: Vec<FrameTag>,
}

/// A named run of frames: one animation.
pub struct FrameTag {
    pub name: String,
    pub from: usize,
    pub to: usize,
    pub direction: String,
    pub color: String,
}

} // verus!
