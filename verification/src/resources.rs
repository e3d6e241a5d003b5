//! Static content of the game as the logic needs it: sizes of images,
//! sprite sheets by name, and the pixels of decoded images.
use vstd::prelude::*;
use crate::aseprite::SpriteSheet;
use crate::strings::str_eq;

verus! {

/// Size of an image in pixels.
#[derive(Clone, Copy, Debug, PartialEq, Eq, Structural)]
pub struct Texture {
    pub width: u32,
    pub height: u32,
}

/// The images that windows are put together from, and how far the left
/// column and the top row of the frame reach into them.
#[derive(Clone, Copy, Debug, PartialEq, Eq, Structural)]
pub struct WindowTextures {
    pub center: Texture,
    pub h_edges: Texture,
    pub v_edges: Texture,
    pub corners: Texture,
    pub px_wid_left: u32,
    pub px_hei_top: u32,
}

/// Width of the left column of a window frame.
pub const PX_WID_LEFT: u32 = 4;

/// Height of the top row of a window frame.
pub const PX_HEI_TOP: u32 = 4;

impl WindowTextures {
    /// The frame images are larger than the left column and the top row,
    /// and the corners image is as wide as the vertical edges and as high
    /// as the horizontal ones.
    pub open spec fn wf(&self) -> bool {
        &&& self.px_wid_left < self.v_edges.width
        &&& self.px_hei_top < self.h_edges.height
        &&& self.corners.width == self.v_edges.width
        &&& self.corners.height == self.h_edges.height
    }

    /// The window images of the game, where their sizes fit together.
    pub fn new(center: Texture, h_edges: Texture, v_edges: Texture, corners: Texture) -> (r:
        Option<WindowTextures>)
        ensures
            r is Some == (PX_WID_LEFT < v_edges.width && PX_HEI_TOP < h_edges.height
                && corners.width == v_edges.width && corners.height == h_edges.height),
            r matches Some(t) ==> t.wf() && t == (WindowTextures {
                center,
                h_edges,
                v_edges,
                corners,
                px_wid_left: PX_WID_LEFT,
                px_hei_top: PX_HEI_TOP,
            }),
    {
        if PX_WID_LEFT < v_edges.width && PX_HEI_TOP < h_edges.height && corners.width
            == v_edges.width && corners.height == h_edges.height {
            Some(
                WindowTextures {
                    center,
                    h_edges,
                    v_edges,
                    corners,
                    px_wid_left: PX_WID_LEFT,
                    px_hei_top: PX_HEI_TOP,
                },
            )
        } else {
            None
        }
    }
}

/// A sprite sheet under the name of its image.
pub struct NamedSheet {
    pub path: String,
    pub sheet: SpriteSheet,
}

pub struct Resources {
    pub font: Texture,
    pub window_textures: WindowTextures,
    pub sprite_sheets: Vec<NamedSheet>,
}

/// Position of the first sheet under the name `path`, or the number of
/// sheets where none is.
pub open spec fn find_sheet(sheets: Seq<NamedSheet>, path: Seq<char>) -> int
    decreases sheets.len(),
{
    if sheets.len() == 0 {
        0
    } else if sheets[0].path@ == path {
        0
    } else {
        1 + find_sheet(sheets.drop_first(), path)
    }
}

pub proof fn lemma_find_sheet(sheets: Seq<NamedSheet>, path: Seq<char>)
    ensures
        0 <= find_sheet(sheets, path) <= sheets.len(),
        find_sheet(sheets, path) < sheets.len() ==> sheets[find_sheet(sheets, path)].path@ == path,
        forall|j: int| 0 <= j < find_sheet(sheets, path) ==> (#[trigger] sheets[j]).path@ != path,
    decreases sheets.len(),
{
    if sheets.len() > 0 && sheets[0].path@ != path {
        lemma_find_sheet(sheets.drop_first(), path);
        assert forall|j: int| 0 <= j < find_sheet(sheets, path) implies (#[trigger] sheets[j]).path@
            != path by {
            if j > 0 {
                assert(sheets[j] == sheets.drop_first()[j - 1]);
            }
        }
    }
}

impl Resources {
    /// The resources of a game: the image of the font, the images of the
    /// windows, and the sprite sheets under the names of their images.
    pub fn new(font: Texture, window_textures: WindowTextures, sprite_sheets: Vec<NamedSheet>) -> (r:
        Resources)
        ensures
            r.font == font,
            r.window_textures == window_textures,
            r.sprite_sheets == sprite_sheets,
    {
        Resources { font, window_textures, sprite_sheets }
    }

    /// A sprite can be made of the sheet under the name `path`.
    pub open spec fn sprite_sheet_usable(&self, path: Seq<char>) -> bool {
        &&& find_sheet(self.sprite_sheets@, path) < self.sprite_sheets@.len()
        &&& crate::sprite::usable_sheet(
            &self.sprite_sheets@[find_sheet(self.sprite_sheets@, path)].sheet,
        )
    }

    /// The first sprite sheet under the name `path`.
    pub open spec fn sheet_named(&self, path: Seq<char>) -> SpriteSheet
        recommends
            find_sheet(self.sprite_sheets@, path) < self.sprite_sheets@.len(),
    {
        self.sprite_sheets@[find_sheet(self.sprite_sheets@, path)].sheet
    }

    /// The sprite sheet under the name `path`, if there is one.
    pub fn sprite_sheet(&self, path: &str) -> (r: Option<&SpriteSheet>)
        ensures
            r is Some == (find_sheet(self.sprite_sheets@, path@) < self.sprite_sheets@.len()),
            r matches Some(sheet) ==> *sheet == self.sprite_sheets@[find_sheet(
                self.sprite_sheets@,
                path@,
            )].sheet,
    {
        let mut i: usize = 0;
        while i < self.sprite_sheets.len() && !str_eq(self.sprite_sheets[i].path.as_str(), path)
            invariant
                i <= self.sprite_sheets@.len(),
                forall|j: int| 0 <= j < i ==> (#[trigger] self.sprite_sheets@[j]).path@ != path@,
            decreases self.sprite_sheets@.len() - i,
        {
            i = i + 1;
        }
        proof {
            lemma_find_sheet(self.sprite_sheets@, path@);
            let f = find_sheet(self.sprite_sheets@, path@);
            if f < i {
                assert(self.sprite_sheets@[f].path@ == path@);
            }
            if i < f {
                assert(self.sprite_sheets@[i as int].path@ != path@);
            }
        }
        if i < self.sprite_sheets.len() {
            Some(&self.sprite_sheets[i].sheet)
        } else {
            None
        }
    }
}

/// How the samples of a decoded image are laid out.
#[derive(Clone, Copy, Debug, PartialEq, Eq, Structural)]
pub enum PngColor {
    Grayscale,
    Rgb,
    Indexed,
    GrayscaleAlpha,
    Rgba,
}

/// The first frame of a PNG image, decoded to eight bits a sample.
pub struct DecodedPng {
    pub width: u32,
    pub height: u32,
    pub color: PngColor,
    pub data: Vec<u8>,
}

/// An image with four bytes a pixel: red, green, blue and opacity.
pub struct Pixels {
    pub width: u32,
    pub height: u32,
    pub rgba: Vec<u8>,
}

/// Largest width and height of an image that a texture is made of.
pub const MAX_TEXTURE_SIDE: u32 = 0xffff;

/// The number that four bytes from position `at` on hold, the first byte
/// counting most.
pub open spec fn be_u32(bytes: Seq<u8>, at: int) -> u32 {
    (bytes[at] as int * 0x100_0000 + bytes[at + 1] as int * 0x1_0000 + bytes[at + 2] as int * 0x100
        + bytes[at + 3] as int) as u32
}

/// Width and height in the header of a PNG file: the two numbers behind
/// the signature and the head of the first chunk, sixteen bytes in all.
/// `None` for a file too short to hold them.
pub open spec fn declared_size(png_bytes: Seq<u8>) -> Option<(u32, u32)> {
    if png_bytes.len() < 24 {
        None
    } else {
        Some((be_u32(png_bytes, 16), be_u32(png_bytes, 20)))
    }
}

/// The header of the file declares an image that a texture can be made
/// of: neither wider nor higher than [`MAX_TEXTURE_SIDE`].
pub open spec fn fits_texture(png_bytes: Seq<u8>) -> bool {
    declared_size(png_bytes) matches Some((width, height)) && width <= MAX_TEXTURE_SIDE && height
        <= MAX_TEXTURE_SIDE
}

/// Reads width and height from the header of a PNG file.
pub fn png_declared_size(png_bytes: &[u8]) -> (r: Option<(u32, u32)>)
    ensures
        r == declared_size(png_bytes@),
{
    if png_bytes.len() < 24 {
        return None;
    }
    let width: u32 = (png_bytes[16] as u32) * 0x100_0000 + (png_bytes[17] as u32) * 0x1_0000 + (
    png_bytes[18] as u32) * 0x100 + (png_bytes[19] as u32);
    let height: u32 = (png_bytes[20] as u32) * 0x100_0000 + (png_bytes[21] as u32) * 0x1_0000 + (
    png_bytes[22] as u32) * 0x100 + (png_bytes[23] as u32);
    Some((width, height))
}

/// What decoding the first frame of a PNG file gives, with palettes
/// expanded and samples brought to eight bits: width, height, layout of
/// the samples and the samples; `None` for a file that cannot be decoded.
pub uninterp spec fn png_frame(png_bytes: Seq<u8>) -> Option<(u32, u32, PngColor, Seq<u8>)>;

/// Decodes the first frame of a PNG file with `png::Decoder`, set to
/// `Transformations::normalize_to_color8`, through `read_info` and
/// `Reader::next_frame`, into a buffer of `Reader::output_buffer_size`
/// bytes. The contract only gives the outcome its name. It asks for a
/// header that declares an image whose sides a texture can have.
#[verifier::external_body]
fn decode_png(png_bytes: &[u8]) -> (r: Option<DecodedPng>)
    requires
        fits_texture(png_bytes@),
    ensures
        r is Some == (png_frame(png_bytes@) is Some),
        r matches Some(d) ==> png_frame(png_bytes@) == Some((d.width, d.height, d.color, d.data@)),
{
    let mut decoder = png::Decoder::new(std::io::Cursor::new(png_bytes));
    decoder.set_transformations(png::Transformations::normalize_to_color8());
    let mut reader = decoder.read_info().ok()?;
    let mut data = vec![0; reader.output_buffer_size()];
    let info = reader.next_frame(&mut data).ok()?;
    let color = match info.color_type {
        png::ColorType::Grayscale => PngColor::Grayscale,
        png::ColorType::Rgb => PngColor::Rgb,
        png::ColorType::Indexed => PngColor::Indexed,
        png::ColorType::GrayscaleAlpha => PngColor::GrayscaleAlpha,
        png::ColorType::Rgba => PngColor::Rgba,
    };
    Some(DecodedPng { width: info.width, height: info.height, color, data })
}

impl PngColor {
    /// Number of samples that make up one pixel; 0 for palette indices,
    /// which stand for no color by themselves.
    pub open spec fn samples(self) -> int {
        match self {
            PngColor::Grayscale => 1,
            PngColor::Rgb => 3,
            PngColor::Indexed => 0,
            PngColor::GrayscaleAlpha => 2,
            PngColor::Rgba => 4,
        }
    }
}

/// The four bytes of pixel `i` of an image with the given samples.
pub open spec fn rgba_pixel(color: PngColor, data: Seq<u8>, i: int) -> Seq<u8> {
    match color {
        PngColor::Grayscale => seq![data[i], data[i], data[i], 255u8],
        PngColor::GrayscaleAlpha => seq![data[2 * i], data[2 * i], data[2 * i], data[2 * i + 1]],
        PngColor::Rgb => seq![data[3 * i], data[3 * i + 1], data[3 * i + 2], 255u8],
        _ => seq![data[4 * i], data[4 * i + 1], data[4 * i + 2], data[4 * i + 3]],
    }
}

/// The image with the given samples as four bytes a pixel, for the whole
/// pixels that the samples make up. Samples that are as many already stay
/// as they are.
pub open spec fn rgba_pixels(color: PngColor, data: Seq<u8>) -> Seq<u8>
    recommends
        color != PngColor::Indexed,
{
    if color == PngColor::Rgba {
        data
    } else {
        Seq::new(
            (4 * (data.len() / color.samples() as nat)) as nat,
            |k: int| rgba_pixel(color, data, k / 4)[k % 4],
        )
    }
}

/// Brings decoded samples to four bytes a pixel. Gray becomes a color
/// with three equal parts, and pixels without opacity become fully
/// opaque. `None` for palette indices.
pub fn rgba_from_samples(color: PngColor, data: Vec<u8>) -> (r: Option<Vec<u8>>)
    requires
        data@.len() <= usize::MAX / 4,
    ensures
        r is Some == (color != PngColor::Indexed),
        r matches Some(pixels) ==> pixels@ == rgba_pixels(color, data@),
{
    let step: usize = match color {
        PngColor::Rgba => {
            return Some(data);
        },
        PngColor::Indexed => {
            return None;
        },
        PngColor::Grayscale => 1,
        PngColor::GrayscaleAlpha => 2,
        PngColor::Rgb => 3,
    };
    let count = data.len() / step;
    let mut pixels: Vec<u8> = Vec::new();
    let mut i: usize = 0;
    while i < count
        invariant
            i <= count == data@.len() / step as nat,
            step == color.samples(),
            1 <= step <= 3,
            data@.len() <= usize::MAX / 4,
            pixels@.len() == 4 * i,
            forall|k: int|
                0 <= k < 4 * i ==> #[trigger] pixels@[k] == rgba_pixel(color, data@, k / 4)[k % 4],
        decreases count - i,
    {
        assert(step * i + step <= data@.len()) by (nonlinear_arith)
            requires
                i < data@.len() / step as nat,
                step >= 1,
        ;
        let ghost before = pixels@;
        match color {
            PngColor::Grayscale => {
                let g = data[i];
                pixels.push(g);
                pixels.push(g);
                pixels.push(g);
                pixels.push(255);
            },
            PngColor::GrayscaleAlpha => {
                let g = data[2 * i];
                let a = data[2 * i + 1];
                pixels.push(g);
                pixels.push(g);
                pixels.push(g);
                pixels.push(a);
            },
            _ => {
                pixels.push(data[3 * i]);
                pixels.push(data[3 * i + 1]);
                pixels.push(data[3 * i + 2]);
                pixels.push(255);
            },
        }
        proof {
            assert forall|k: int| 0 <= k < 4 * (i + 1) implies #[trigger] pixels@[k] == rgba_pixel(
                color,
                data@,
                k / 4,
            )[k % 4] by {
                if k < 4 * i {
                    assert(pixels@[k] == before[k]);
                } else {
                    assert(k / 4 == i);
                }
            }
        }
        i = i + 1;
    }
    assert(pixels@ =~= rgba_pixels(color, data@));
    Some(pixels)
}

/// The image that a decoded PNG frame stands for, `None` for what is no
/// frame or one of palette indices.
pub open spec fn pixels_of_frame(frame: Option<(u32, u32, PngColor, Seq<u8>)>) -> Option<
    (u32, u32, Seq<u8>),
> {
    match frame {
        Some((width, height, color, data)) => if color == PngColor::Indexed {
            None
        } else {
            Some((width, height, rgba_pixels(color, data)))
        },
        None => None,
    }
}

/// The pixels of a decoded frame.
pub fn pixels_from_decoded(decoded: Option<DecodedPng>) -> (r: Option<Pixels>)
    requires
        decoded matches Some(d) ==> d.data@.len() <= usize::MAX / 4,
    ensures
        r is Some == (decoded matches Some(d) && d.color != PngColor::Indexed),
        r matches Some(p) ==> Some((p.width, p.height, p.rgba@)) == pixels_of_frame(
            Some((decoded->0.width, decoded->0.height, decoded->0.color, decoded->0.data@)),
        ),
{
    match decoded {
        None => None,
        Some(d) => {
            let width = d.width;
            let height = d.height;
            match rgba_from_samples(d.color, d.data) {
                Some(rgba) => Some(Pixels { width, height, rgba }),
                None => None,
            }
        },
    }
}

/// The image that a PNG file holds, at four bytes a pixel: `None` where
/// the header declares no image that a texture can be made of, where the
/// file cannot be decoded, where its frame comes out as palette indices,
/// and where the frame is too large to hold at four bytes a pixel.
pub open spec fn texture_of(png_bytes: Seq<u8>) -> Option<(u32, u32, Seq<u8>)> {
    if !fits_texture(png_bytes) {
        None
    } else if png_frame(png_bytes) matches Some(frame) && frame.3.len() > usize::MAX / 4 {
        None
    } else {
        pixels_of_frame(png_frame(png_bytes))
    }
}

/// Decodes a PNG file to four bytes a pixel.
pub fn texture_from_png_bytes(png_bytes: &[u8]) -> (r: Option<Pixels>)
    ensures
        r is Some == (texture_of(png_bytes@) is Some),
        r matches Some(p) ==> texture_of(png_bytes@) == Some((p.width, p.height, p.rgba@)),
{
    match png_declared_size(png_bytes) {
        Some((width, height)) => {
            if width > MAX_TEXTURE_SIDE || height > MAX_TEXTURE_SIDE {
                return None;
            }
        },
        None => {
            return None;
        },
    }
    let decoded = decode_png(png_bytes);
    match &decoded {
        Some(d) => {
            if d.data.len() > usize::MAX / 4 {
                return None;
            }
        },
        None => {},
    }
    pixels_from_decoded(decoded)
}

} // verus!
