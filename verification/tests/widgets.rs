use corics_quest::actor::{Actor, ActorError, ActorType, ChestType};
use corics_quest::aseprite::{Frame, FrameTag, Meta, Rect, Size, SpriteSheet};
use corics_quest::direction::Direction;
use corics_quest::draw::{DrawCommand, Patch, WindowPartKind};
use corics_quest::levels::{
    BlockedEdges, Layer, Level, NeighbourLevel, TileSource, Tileset,
};
use corics_quest::resources::{
    png_declared_size, rgba_from_samples, texture_from_png_bytes, PngColor, Texture,
    WindowTextures,
};
use corics_quest::sprite::Sprite;
use corics_quest::text::Text;
use corics_quest::window::Window;

fn font() -> Texture {
    Texture { width: 96, height: 128 }
}

fn window_textures() -> WindowTextures {
    let t = Texture { width: 8, height: 8 };
    WindowTextures::new(t, t, t, t).unwrap()
}

fn sheet(image: &str, frames: usize, tags: &[(&str, usize, usize, &str)]) -> SpriteSheet {
    SpriteSheet {
        frames: (0..frames)
            .map(|i| Frame {
                filename: format!("{image} {i}"),
                frame: Rect { x: 16 * i as u16, y: 0, w: 16, h: 16 },
                rotated: false,
                trimmed: false,
                sprite_source_size: Rect { x: 0, y: 0, w: 16, h: 16 },
                source_size: Size { w: 16, h: 16 },
                duration: 100,
            })
            .collect(),
        meta: Meta {
            app: String::new(),
            version: String::new(),
            image: String::from(image),
            format: String::new(),
            size: Size { w: 16 * frames as u16, h: 16 },
            scale: String::from("1"),
            frame_tags: tags
                .iter()
                .map(|(name, from, to, direction)| FrameTag {
                    name: String::from(*name),
                    from: *from,
                    to: *to,
                    direction: String::from(*direction),
                    color: String::new(),
                })
                .collect(),
        },
    }
}

#[test]
fn text_is_laid_out_in_cells() {
    let text = Text::from_str(&font(), 10, 20, "Hi there\n!");
    assert_eq!(text.glyph_count(), 8);
    assert_eq!(text.shown_chars(), 8);
    assert_eq!(text.width(), 48);
    assert_eq!(text.height(), 16);
    let mut out = Vec::new();
    text.draw(&mut out);
    assert_eq!(out.len(), 1);
    match &out[0] {
        DrawCommand::Text { x, y, char_width, char_height, glyphs } => {
            assert_eq!((*x, *y, *char_width, *char_height), (10, 20, 6, 8));
            assert_eq!(glyphs.len(), 8);
            // 'H' is character 72: column 8, row 4 of the font.
            assert_eq!((glyphs[0].src_x, glyphs[0].src_y, glyphs[0].x, glyphs[0].y), (48, 32, 0, 0));
            // 't' follows the blank.
            assert_eq!((glyphs[2].x, glyphs[2].y), (18, 0));
            // '!' is character 33, on the second line.
            assert_eq!((glyphs[7].src_x, glyphs[7].src_y, glyphs[7].x, glyphs[7].y), (6, 16, 0, 8));
        }
        _ => panic!("a text draws text"),
    }
}

#[test]
fn characters_without_a_picture_become_question_marks() {
    let text = Text::from_str(&font(), 0, 0, "\u{25ba}\u{e9}~");
    let mut out = Vec::new();
    text.draw(&mut out);
    match &out[0] {
        DrawCommand::Text { glyphs, .. } => {
            assert_eq!((glyphs[0].src_x, glyphs[0].src_y), (0, 8));
            assert_eq!((glyphs[1].src_x, glyphs[1].src_y), (90, 24));
            assert_eq!((glyphs[2].src_x, glyphs[2].src_y), (84, 56));
        }
        _ => panic!("a text draws text"),
    }
}

#[test]
fn text_is_revealed_one_glyph_a_step() {
    let mut text = Text::from_str(&font(), 0, 0, "a b c");
    let mut started = false;
    assert!(text.reveal_step(&mut started).is_pending());
    assert!(started);
    assert_eq!(text.shown_chars(), 0);
    let mut out = Vec::new();
    text.draw(&mut out);
    assert!(out.is_empty());
    assert!(text.reveal_step(&mut started).is_pending());
    assert_eq!(text.shown_chars(), 1);
    assert!(text.reveal_step(&mut started).is_pending());
    assert!(!text.all_chars_shown());
    assert!(text.reveal_step(&mut started).is_ready());
    assert_eq!(text.shown_chars(), 3);
    assert!(text.all_chars_shown());
    text.draw(&mut out);
    assert!(matches!(&out[0], DrawCommand::Text { glyphs, .. } if glyphs.len() == 3));
}

#[test]
fn empty_text_is_revealed_at_once() {
    let mut text = Text::from_str(&font(), 0, 0, "  \n ");
    assert_eq!(text.glyph_count(), 0);
    assert_eq!((text.width(), text.height()), (0, 0));
    let mut started = false;
    assert!(text.reveal_step(&mut started).is_ready());
}

#[test]
fn text_can_be_hidden_and_shown() {
    let mut text = Text::new(&font(), 1, 2);
    text.set_text("abc");
    text.hide_all_chars();
    assert_eq!(text.shown_chars(), 0);
    text.show_one_char();
    text.show_one_char();
    assert_eq!(text.shown_chars(), 2);
    text.show_one_char();
    text.show_one_char();
    assert_eq!(text.shown_chars(), 3);
    text.hide_all_chars();
    text.show_all_chars();
    assert_eq!(text.shown_chars(), 3);
    text.set_offset(7, 9);
    let mut out = Vec::new();
    text.draw(&mut out);
    assert!(matches!(&out[0], DrawCommand::Text { x: 7, y: 9, .. }));
}

fn parts(window: &Window) -> Vec<(WindowPartKind, i64, i64, Vec<Patch>)> {
    let mut out = Vec::new();
    window.draw(&mut out);
    out.into_iter()
        .map(|c| match c {
            DrawCommand::WindowPart { kind, x, y, patches } => (kind, x, y, patches),
            _ => panic!("a window draws window parts"),
        })
        .collect()
}

#[test]
fn window_is_put_together_from_nine_rectangles() {
    let window = Window::new(&window_textures(), 44, 124, 232, 40);
    let parts = parts(&window);
    assert_eq!(parts.len(), 4);
    let patch = |width, height, src_x, src_y, x, y| Patch { width, height, src_x, src_y, x, y };
    assert_eq!(parts[0], (WindowPartKind::Center, 48, 128, vec![patch(224, 32, 0, 0, 0, 0)]));
    assert_eq!(
        parts[1],
        (
            WindowPartKind::VEdges,
            44,
            128,
            vec![patch(4, 32, 0, 0, 0, 0), patch(4, 32, 4, 0, 228, 0)]
        )
    );
    assert_eq!(
        parts[2],
        (
            WindowPartKind::HEdges,
            48,
            124,
            vec![patch(224, 4, 0, 0, 0, 0), patch(224, 4, 0, 4, 0, 36)]
        )
    );
    assert_eq!(
        parts[3],
        (
            WindowPartKind::Corners,
            44,
            124,
            vec![
                patch(4, 4, 0, 0, 0, 0),
                patch(4, 4, 4, 0, 228, 0),
                patch(4, 4, 0, 4, 0, 36),
                patch(4, 4, 4, 4, 228, 36),
            ]
        )
    );
}

#[test]
fn small_windows_lose_their_middle() {
    let mut window = Window::new(&window_textures(), 0, 0, 6, 3);
    let small = parts(&window);
    assert_eq!(small.len(), 1);
    assert_eq!(small[0].0, WindowPartKind::Corners);
    assert_eq!(
        small[0].3,
        vec![
            Patch { width: 4, height: 3, src_x: 0, src_y: 0, x: 0, y: 0 },
            Patch { width: 2, height: 3, src_x: 4, src_y: 0, x: 4, y: 0 },
        ]
    );
    window.resize(-5, 10);
    let flat = parts(&window);
    assert_eq!(flat.len(), 1);
    assert_eq!(flat[0].3, vec![Patch { width: 0, height: 4, src_x: 0, src_y: 0, x: 0, y: 0 }]);
    window.resize(0, 0);
    assert!(parts(&window).is_empty());
    window.set_offset(3, 4);
    window.resize(8, 8);
    let square = parts(&window);
    assert_eq!(square.len(), 1);
    assert_eq!((square[0].1, square[0].2), (3, 4));
    assert_eq!(square[0].3.len(), 4);
}

#[test]
fn window_images_must_fit_together() {
    let t = |width, height| Texture { width, height };
    assert!(WindowTextures::new(t(8, 8), t(8, 8), t(8, 8), t(8, 8)).is_some());
    assert!(WindowTextures::new(t(8, 8), t(8, 8), t(4, 8), t(4, 8)).is_none());
    assert!(WindowTextures::new(t(8, 8), t(8, 4), t(8, 8), t(8, 4)).is_none());
    assert!(WindowTextures::new(t(8, 8), t(8, 8), t(8, 8), t(9, 8)).is_none());
    assert!(WindowTextures::new(t(8, 8), t(8, 8), t(8, 8), t(8, 9)).is_none());
}

#[test]
fn sprite_runs_through_its_frames() {
    let mut sprite = Sprite::new(&sheet("x.png", 3, &[("idle", 0, 2, "forward")])).unwrap();
    assert_eq!(sprite.frame_index(), 0);
    // A frame of 100 ms is shown for six ticks of a sixtieth of a second.
    for _ in 0..5 {
        sprite.animate();
        assert_eq!(sprite.frame_index(), 0);
    }
    sprite.animate();
    assert_eq!(sprite.frame_index(), 1);
    for _ in 0..6 {
        sprite.animate();
    }
    assert_eq!(sprite.frame_index(), 2);
    for _ in 0..6 {
        sprite.animate();
    }
    assert_eq!(sprite.frame_index(), 0);
}

#[test]
fn ping_pong_turns_at_its_ends() {
    let mut sprite = Sprite::new(&sheet("x.png", 3, &[("idle", 0, 2, "pingpong")])).unwrap();
    let mut seen = Vec::new();
    for _ in 0..6 {
        for _ in 0..6 {
            sprite.animate();
        }
        seen.push(sprite.frame_index());
    }
    assert_eq!(seen, vec![1, 2, 1, 0, 1, 2]);
}

#[test]
fn animations_start_by_name() {
    let tags = [
        ("face_s", 0, 0, "forward"),
        ("walk_s", 1, 2, "pingpong"),
        ("walk_n", 3, 4, "forward"),
        ("face_n", 5, 5, "forward"),
        ("back", 0, 5, "reverse"),
    ];
    let mut sprite = Sprite::new(&sheet("coric.png", 6, &tags)).unwrap();
    assert_eq!(sprite.image_name(), "coric.png");
    assert!(sprite.start_walk_animation(Direction::North));
    assert_eq!((sprite.tag_index(), sprite.frame_index()), (2, 3));
    assert!(sprite.stop_walk_animation());
    assert_eq!((sprite.tag_index(), sprite.frame_index()), (3, 5));
    assert!(sprite.stop_walk_animation());
    assert_eq!(sprite.tag_index(), 3);
    assert!(!sprite.start_walk_animation(Direction::East));
    assert!(!sprite.start_animation("back"));
    assert!(!sprite.start_animation("missing"));
    assert_eq!(sprite.tag_index(), 3);
    assert!(sprite.start_animation("walk_s"));
    assert_eq!(sprite.frame_rect(), Rect { x: 16, y: 0, w: 16, h: 16 });
}

#[test]
fn sheets_that_cannot_be_used_give_no_sprite() {
    assert!(Sprite::new(&sheet("x.png", 0, &[("idle", 0, 0, "forward")])).is_none());
    assert!(Sprite::new(&sheet("x.png", 2, &[])).is_none());
    assert!(Sprite::new(&sheet("x.png", 2, &[("idle", 0, 2, "forward")])).is_none());
    assert!(Sprite::new(&sheet("x.png", 2, &[("idle", 1, 0, "forward")])).is_none());
    assert!(Sprite::new(&sheet("x.png", 2, &[("idle", 0, 1, "sideways")])).is_none());
    assert!(Sprite::new(&sheet("x.png", 2, &[("idle", 0, 1, "pingpong_reverse")])).is_some());
}

#[test]
fn actors_are_named_in_level_data() {
    assert_eq!(ActorType::from("Player"), Some(ActorType::Player));
    assert_eq!(ActorType::from("Matero"), Some(ActorType::Matero));
    assert_eq!(ActorType::from("matero"), None);
    assert_eq!(ChestType::from("MythicPlate"), Some(ChestType::MythicPlate));
    assert_eq!(ChestType::from("Plate"), None);
    let s = sheet("chest.png", 2, &[("closed", 0, 0, "forward"), ("open", 1, 1, "forward")]);
    let chest = Actor::new_by_json(Some(&s), "Chest", 4, 5, Some("LongSword")).ok().unwrap();
    assert_eq!((chest.identifier, chest.grid_x, chest.grid_y), (ActorType::Chest, 4, 5));
    assert_eq!(chest.chest_type, Some(ChestType::LongSword));
    assert!(chest.visible);
    assert_eq!(chest.face_dir, Direction::South);
    let bed = Actor::new_by_json(Some(&s), "Bed", 1, 1, Some("LongSword")).ok().unwrap();
    assert!(bed.chest_type.is_none());
    assert!(matches!(
        Actor::new_by_json(Some(&s), "Crate", 0, 0, None),
        Err(ActorError::UnknownActorType)
    ));
    assert!(matches!(
        Actor::new_by_json(None, "Chest", 0, 0, Some("LongSword")),
        Err(ActorError::MissingSprite)
    ));
    assert!(matches!(
        Actor::new_by_json(Some(&s), "Chest", 0, 0, None),
        Err(ActorError::BadChestType)
    ));
    assert!(matches!(
        Actor::new_by_json(Some(&s), "Chest", 0, 0, Some("Gold")),
        Err(ActorError::BadChestType)
    ));
}

fn blocked(dir: Direction, tile_ids: &[usize]) -> BlockedEdges {
    BlockedEdges { dir, tile_ids: tile_ids.to_vec() }
}

#[test]
fn tileset_knows_the_blocked_edges_of_its_tiles() {
    let edges = vec![
        blocked(Direction::North, &[0, 5]),
        blocked(Direction::West, &[5, 5]),
        blocked(Direction::South, &[11]),
    ];
    let tileset = Tileset::new(16, 4, 3, &edges).unwrap();
    assert_eq!(tileset.edges_blocked.as_ref().unwrap().len(), 6);
    for y in 0..3u8 {
        for x in 0..4u8 {
            let tile = y as usize * 4 + x as usize;
            for dir in [Direction::North, Direction::East, Direction::South, Direction::West] {
                let expected = matches!(
                    (tile, dir),
                    (0, Direction::North)
                        | (5, Direction::North)
                        | (5, Direction::West)
                        | (11, Direction::South)
                );
                assert_eq!(tileset.is_edge_blocked(x, y, dir), expected);
            }
        }
    }
    assert!(!tileset.is_edge_blocked(0, 3, Direction::North));
    assert!(Tileset::new(16, 4, 3, &vec![blocked(Direction::East, &[12])]).is_none());
    assert!(Tileset::new(16, usize::MAX, 2, &Vec::new()).is_none());
    assert!(!Tileset::open_tileset(16, 4).is_edge_blocked(0, 0, Direction::North));
}

fn wall_tileset() -> Tileset {
    // Tile 1 blocks its east edge, tile 2 is a wall all round.
    Tileset::new(
        16,
        4,
        1,
        &vec![
            blocked(Direction::East, &[1, 2]),
            blocked(Direction::North, &[2]),
            blocked(Direction::South, &[2]),
            blocked(Direction::West, &[2]),
        ],
    )
    .unwrap()
}

fn tile(src_x: u16, src_y: u16, cell_x: usize, cell_y: usize) -> TileSource {
    TileSource { src_x, src_y, px_x: 16 * cell_x, px_y: 16 * cell_y }
}

#[test]
fn edges_block_from_both_sides() {
    let tiles = vec![tile(16, 0, 1, 1), tile(32, 0, 3, 0)];
    let layer = Layer::from_tiles("Base", 4, 2, wall_tileset(), &tiles).unwrap();
    // From the tile that blocks its east edge.
    assert!(layer.is_edge_blocked(1, 1, Direction::East));
    assert!(!layer.is_edge_blocked(1, 1, Direction::West));
    // From its neighbour, against the same edge.
    assert!(layer.is_edge_blocked(2, 1, Direction::West));
    assert!(!layer.is_edge_blocked(2, 1, Direction::East));
    // Into the wall from below, and out of the layer.
    assert!(layer.is_edge_blocked(3, 1, Direction::North));
    assert!(layer.is_edge_blocked(3, 0, Direction::East));
    assert!(layer.is_edge_blocked(4, 0, Direction::West));
    assert!(!layer.is_edge_blocked(0, 0, Direction::North));
    assert!(!layer.is_edge_blocked(-1, -1, Direction::South));
    assert!(!layer.is_edge_blocked(i32::MAX, i32::MIN, Direction::East));
}

#[test]
fn tiles_that_do_not_fit_give_no_layer() {
    let open = || Tileset::open_tileset(16, 4);
    assert!(Layer::from_tiles("Base", 2, 2, open(), &vec![tile(0, 0, 0, 2)]).is_none());
    assert!(Layer::from_tiles("Base", 2, 2, open(), &vec![tile(16 * 256, 0, 0, 0)]).is_none());
    assert!(Layer::from_tiles("Base", 2, 2, Tileset::open_tileset(0, 4), &vec![tile(0, 0, 0, 0)])
        .is_none());
    assert!(Layer::from_tiles("Base", 2, 2, Tileset::open_tileset(0, 4), &Vec::new()).is_some());
    assert!(Layer::new("Base", 2, 2, open(), vec![0; 15]).is_none());
    assert!(Layer::new("Base", 2, 2, open(), vec![0; 16]).is_some());
}

fn props(tiles: &[TileSource]) -> Layer {
    Layer::from_tiles("Props", 4, 2, Tileset::open_tileset(16, 4), &tiles.to_vec()).unwrap()
}

fn level(props: Layer) -> Level {
    let base = Layer::from_tiles(
        "Base",
        4,
        2,
        Tileset::open_tileset(16, 4),
        &vec![tile(0, 64, 2, 1)],
    )
    .unwrap();
    Level::new("Level_0", 0, 0, 64, 32, vec![props, base], Vec::new(), None, None).unwrap()
}

#[test]
fn ice_is_the_fifth_tile_of_the_first_column() {
    let level = level(props(&[]));
    assert!(level.is_ice_tile(2, 1));
    assert!(!level.is_ice_tile(1, 1));
    assert!(!level.is_ice_tile(2, 2));
    assert!(!level.is_ice_tile(-1, 0));
}

#[test]
fn lever_opens_doors_and_raises_spikes() {
    let mut level = level(props(&[tile(16, 0, 0, 0), tile(48, 32, 1, 0), tile(32, 0, 2, 0)]));
    level.sync_props_with_lever(true);
    let data = level.layers[0].tile_data.clone();
    assert_eq!(&data[0..2], &[1, 1]);
    assert_eq!(&data[4..6], &[3, 3]);
    assert_eq!(&data[8..10], &[2, 0]);
    assert_eq!(&data[12..14], &[0, 0]);
    level.sync_props_with_lever(true);
    assert_eq!(level.layers[0].tile_data, data);
    level.sync_props_with_lever(false);
    assert_eq!(&level.layers[0].tile_data[0..6], &[1, 0, 0, 0, 3, 2]);
}

#[test]
fn gates_take_two_tiles() {
    let mut level = level(props(&[]));
    assert!(level.place_gates(1, 1));
    let data = &level.layers[0].tile_data;
    assert_eq!(&data[20..22], &[2, 0]);
    assert_eq!(&data[24..26], &[2, 0]);
    assert_eq!(data.iter().filter(|b| **b != 0).count(), 2);
    assert!(!level.place_gates(3, 1));
    assert!(!level.place_gates(-1, 0));
    assert!(!level.place_gates(0, 2));
    assert_eq!(level.layers[0].tile_data.iter().filter(|b| **b != 0).count(), 2);
}

#[test]
fn levels_need_their_layers() {
    let open = || Tileset::open_tileset(16, 4);
    let layer = |name: &str| Layer::from_tiles(name, 1, 1, open(), &Vec::new()).unwrap();
    let make = |layers: Vec<Layer>, wid: i32| {
        Level::new("L", 0, 0, wid, 16, layers, Vec::new(), None, None)
    };
    assert!(make(vec![layer("Base"), layer("Props")], 16).is_some());
    assert!(make(vec![layer("Base")], 16).is_none());
    assert!(make(vec![layer("Props")], 16).is_none());
    assert!(make(vec![layer("Base"), layer("Props")], -16).is_none());
    let n = NeighbourLevel::new("e", "abc").unwrap();
    assert_eq!(n.direction(), Direction::East);
    assert_eq!(n.iid(), "abc");
    assert!(NeighbourLevel::new("<", "abc").is_none());
    assert!(NeighbourLevel::new("n", "").is_some());
}

fn encode(color: png::ColorType, depth: png::BitDepth, width: u32, data: &[u8]) -> Vec<u8> {
    let mut bytes = Vec::new();
    {
        let mut encoder = png::Encoder::new(&mut bytes, width, 1);
        encoder.set_color(color);
        encoder.set_depth(depth);
        let mut writer = encoder.write_header().unwrap();
        writer.write_image_data(data).unwrap();
    }
    bytes
}

#[test]
fn png_files_decode_to_four_bytes_a_pixel() {
    let rgb = encode(png::ColorType::Rgb, png::BitDepth::Eight, 2, &[1, 2, 3, 4, 5, 6]);
    let pixels = texture_from_png_bytes(&rgb).unwrap();
    assert_eq!((pixels.width, pixels.height), (2, 1));
    assert_eq!(pixels.rgba, vec![1, 2, 3, 255, 4, 5, 6, 255]);
    let gray = encode(png::ColorType::Grayscale, png::BitDepth::Eight, 3, &[0, 128, 255]);
    assert_eq!(
        texture_from_png_bytes(&gray).unwrap().rgba,
        vec![0, 0, 0, 255, 128, 128, 128, 255, 255, 255, 255, 255]
    );
    let gray_alpha = encode(png::ColorType::GrayscaleAlpha, png::BitDepth::Eight, 1, &[9, 7]);
    assert_eq!(texture_from_png_bytes(&gray_alpha).unwrap().rgba, vec![9, 9, 9, 7]);
    let rgba = encode(png::ColorType::Rgba, png::BitDepth::Eight, 1, &[1, 2, 3, 4]);
    assert_eq!(texture_from_png_bytes(&rgba).unwrap().rgba, vec![1, 2, 3, 4]);
    let deep = encode(png::ColorType::Rgb, png::BitDepth::Sixteen, 1, &[0xab, 0, 0xcd, 0, 0xef, 0]);
    assert_eq!(texture_from_png_bytes(&deep).unwrap().rgba, vec![0xab, 0xcd, 0xef, 255]);
}

#[test]
fn what_is_no_png_file_gives_no_pixels() {
    assert!(texture_from_png_bytes(&[]).is_none());
    assert!(texture_from_png_bytes(b"not a png file").is_none());
    let mut cut = encode(png::ColorType::Rgb, png::BitDepth::Eight, 2, &[1, 2, 3, 4, 5, 6]);
    cut.truncate(40);
    assert!(texture_from_png_bytes(&cut).is_none());
}

#[test]
fn header_tells_the_size_of_the_image() {
    let file = encode(png::ColorType::Rgb, png::BitDepth::Eight, 2, &[1, 2, 3, 4, 5, 6]);
    assert_eq!(png_declared_size(&file), Some((2, 1)));
    assert_eq!(png_declared_size(&file[..24]), Some((2, 1)));
    assert_eq!(png_declared_size(&file[..23]), None);
    let mut bytes = vec![0u8; 24];
    bytes[16..24].copy_from_slice(&[0x12, 0x34, 0x56, 0x78, 0xff, 0xff, 0xff, 0xfe]);
    assert_eq!(png_declared_size(&bytes), Some((0x1234_5678, 0xffff_fffe)));
}

#[test]
fn images_too_large_for_a_texture_are_turned_down() {
    let mut file = encode(png::ColorType::Rgb, png::BitDepth::Eight, 2, &[1, 2, 3, 4, 5, 6]);
    assert!(texture_from_png_bytes(&file).is_some());
    // A header that declares an image of 65536 pixels in width.
    file[16..20].copy_from_slice(&[0, 1, 0, 0]);
    assert!(texture_from_png_bytes(&file).is_none());
}

#[test]
fn samples_become_pixels() {
    assert_eq!(rgba_from_samples(PngColor::Rgb, vec![1, 2, 3, 4, 5]), Some(vec![1, 2, 3, 255]));
    assert_eq!(rgba_from_samples(PngColor::Grayscale, vec![]), Some(vec![]));
    assert_eq!(
        rgba_from_samples(PngColor::GrayscaleAlpha, vec![5, 6, 7]),
        Some(vec![5, 5, 5, 6])
    );
    assert_eq!(rgba_from_samples(PngColor::Rgba, vec![1, 2, 3]), Some(vec![1, 2, 3]));
    assert_eq!(rgba_from_samples(PngColor::Indexed, vec![1, 2, 3]), None);
}
