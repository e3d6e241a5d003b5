use corics_quest::actor::{Actor, ActorType};
use corics_quest::aseprite::{Frame, FrameTag, Meta, Rect, Size, SpriteSheet};
use corics_quest::async_utils::Poll;
use corics_quest::audio::{Audio, AudioCommand, Sfx};
use corics_quest::contexts::ModeContext;
use corics_quest::direction::Direction;
use corics_quest::draw::DrawCommand;
use corics_quest::enemy::EncounterGroup;
use corics_quest::fade::Fade;
use corics_quest::input::{Input, KEY_DOWN, KEY_X, KEY_Z};
use corics_quest::levels::{BlockedEdges, Layer, Level, TileSource, Tileset};
use corics_quest::modes::battle::Battle;
use corics_quest::modes::credits::Credits;
use corics_quest::modes::debug_menu::DebugMenu;
use corics_quest::modes::ending::Ending;
use corics_quest::modes::intro::Intro;
use corics_quest::modes::main_menu::MainMenu;
use corics_quest::modes::options::Options;
use corics_quest::modes::text_box::{TextBox, TextBoxEvent, TextBoxPhase};
use corics_quest::modes::title::Title;
use corics_quest::modes::walk_around::{WalkAround, WalkPhase};
use corics_quest::modes::yes_no_prompt::YesNoPrompt;
use corics_quest::modes::{Mode, ModeKind, ModeStack, ModeStackError};
use corics_quest::progress::Progress;
use corics_quest::random::Rng;
use corics_quest::resources::{NamedSheet, Resources, Texture, WindowTextures};

fn sheet(image: &str, tags: &[&str]) -> NamedSheet {
    NamedSheet {
        path: String::from(image),
        sheet: SpriteSheet {
            frames: (0..tags.len())
                .map(|i| Frame {
                    filename: String::new(),
                    frame: Rect { x: 16 * i as u16, y: 0, w: 16, h: 16 },
                    rotated: false,
                    trimmed: false,
                    sprite_source_size: Rect { x: 0, y: 0, w: 16, h: 16 },
                    source_size: Size { w: 16, h: 16 },
                    duration: 100,
                })
                .collect(),
            meta: Meta {
                app: String::new(),
                version: String::new(),
                image: String::from(image),
                format: String::new(),
                size: Size { w: 16, h: 16 },
                scale: String::new(),
                frame_tags: tags
                    .iter()
                    .enumerate()
                    .map(|(i, name)| FrameTag {
                        name: String::from(*name),
                        from: i,
                        to: i,
                        direction: String::from("forward"),
                        color: String::new(),
                    })
                    .collect(),
            },
        },
    }
}

const WALKING: [&str; 8] =
    ["face_s", "face_n", "face_e", "face_w", "walk_s", "walk_n", "walk_e", "walk_w"];

fn resources() -> Resources {
    let t = Texture { width: 8, height: 8 };
    Resources {
        font: Texture { width: 96, height: 128 },
        window_textures: WindowTextures::new(t, t, t, t).unwrap(),
        sprite_sheets: vec![
            sheet("coric.png", &WALKING),
            sheet("rat.png", &["idle"]),
            sheet("julis.png", &["face_s"]),
            sheet("title.png", &["idle"]),
            sheet("air.png", &["idle"]),
        ],
    }
}

fn layer(name: &str, wid: u16, hei: u16, tileset: Tileset, tiles: Vec<TileSource>) -> Layer {
    Layer::from_tiles(name, wid, hei, tileset, &tiles).unwrap()
}

fn field(encounters: Option<EncounterGroup>) -> Level {
    // Five tiles by three; the tile (3, 1) is ice, and the tile (1, 0) is a wall.
    let wall = Tileset::new(
        16,
        4,
        1,
        &vec![
            BlockedEdges { dir: Direction::North, tile_ids: vec![1] },
            BlockedEdges { dir: Direction::East, tile_ids: vec![1] },
            BlockedEdges { dir: Direction::South, tile_ids: vec![1] },
            BlockedEdges { dir: Direction::West, tile_ids: vec![1] },
        ],
    )
    .unwrap();
    let base = layer(
        "Base",
        5,
        3,
        Tileset::open_tileset(16, 4),
        vec![TileSource { src_x: 0, src_y: 64, px_x: 48, px_y: 16 }],
    );
    let props = layer("Props", 5, 3, wall, vec![TileSource { src_x: 16, src_y: 0, px_x: 16, px_y: 0 }]);
    Level::new("Field", 0, 0, 80, 48, vec![base, props], Vec::new(), encounters, None).unwrap()
}

fn actor(res: &Resources, kind: ActorType, image: &str, x: i32, y: i32) -> Actor {
    Actor::new(res.sprite_sheet(image).unwrap(), kind, x, y).unwrap()
}

fn context(encounters: Option<EncounterGroup>) -> ModeContext {
    let res = resources();
    let actors = vec![
        actor(&res, ActorType::Player, "coric.png", 1, 1),
        actor(&res, ActorType::Julis, "julis.png", 0, 2),
    ];
    ModeContext {
        res,
        input: Input::new(),
        audio: Audio::new(100, 100),
        rng: Rng::new(1),
        progress: Progress::new(),
        level: field(encounters),
        actors,
        fade: Fade::new(),
        encounter_steps: 3,
        options_to_save: None,
    }
}

fn press(ctx: &mut ModeContext, key: u16) {
    ctx.input.handle_key_down_event(key);
    ctx.input.handle_key_up_event(key);
}

fn sounds(ctx: &mut ModeContext) -> Vec<Sfx> {
    ctx.audio
        .take_commands()
        .into_iter()
        .filter_map(|c| match c {
            AudioCommand::PlaySfx { sfx, .. } => Some(sfx),
            _ => None,
        })
        .collect()
}


const KINDS: [ModeKind; 11] = [
    ModeKind::Battle,
    ModeKind::Credits,
    ModeKind::DebugMenu,
    ModeKind::Ending,
    ModeKind::Intro,
    ModeKind::MainMenu,
    ModeKind::Options,
    ModeKind::TextBox,
    ModeKind::Title,
    ModeKind::WalkAround,
    ModeKind::YesNoPrompt,
];

fn mode(kind: ModeKind, ctx: &ModeContext) -> Mode {
    let res = &ctx.res;
    match kind {
        ModeKind::Battle => Mode::Battle(Box::new(
            Battle::new(res, 50, 15, EncounterGroup::Wilderness1.enemy(0), false).unwrap(),
        )),
        ModeKind::Credits => Mode::Credits(Box::new(Credits::new(res, "1.0"))),
        ModeKind::DebugMenu => Mode::DebugMenu(Box::new(DebugMenu::new(res))),
        ModeKind::Ending => Mode::Ending(Box::new(Ending::new(res))),
        ModeKind::Intro => Mode::Intro(Box::new(Intro::new(res).unwrap())),
        ModeKind::MainMenu => Mode::MainMenu(Box::new(MainMenu::new(res, &ctx.progress))),
        ModeKind::Options => Mode::Options(Box::new(Options::new(res, 60, 40, false).unwrap())),
        ModeKind::TextBox => Mode::TextBox(Box::new(TextBox::new(res, "Hello"))),
        ModeKind::Title => Mode::Title(Box::new(Title::new(res, false).unwrap())),
        ModeKind::WalkAround => Mode::WalkAround(Box::new(WalkAround::new())),
        ModeKind::YesNoPrompt => {
            Mode::YesNoPrompt(Box::new(YesNoPrompt::new(res, "Sure?", "Yes", "No", true)))
        }
    }
}

/// Asks the stack to update a mode of the given kind; tells whether the update
/// was made and, if so, whether it is pending.
fn update(
    stack: &mut ModeStack,
    ctx: &mut ModeContext,
    kind: ModeKind,
) -> Result<bool, ModeStackError> {
    match kind {
        ModeKind::Battle => stack.try_update_battle_mode(ctx).map(|p| p.is_pending()),
        ModeKind::Credits => stack.try_update_credits_mode(ctx).map(|p| p.is_pending()),
        ModeKind::DebugMenu => stack.try_update_debug_menu_mode(ctx).map(|p| p.is_pending()),
        ModeKind::Ending => stack.try_update_ending_mode(ctx).map(|p| p.is_pending()),
        ModeKind::Intro => stack.try_update_intro_mode(ctx).map(|p| p.is_pending()),
        ModeKind::MainMenu => stack.try_update_main_menu_mode(ctx).map(|p| p.is_pending()),
        ModeKind::Options => stack.try_update_options_mode(ctx).map(|p| p.is_pending()),
        ModeKind::TextBox => stack.try_update_text_box_mode(ctx).map(|p| p.is_pending()),
        ModeKind::Title => stack.try_update_title_mode(ctx).map(|p| p.is_pending()),
        ModeKind::WalkAround => stack.try_update_walk_around_mode(ctx).map(|p| p.is_pending()),
        ModeKind::YesNoPrompt => stack.try_update_yes_no_prompt_mode(ctx).map(|p| p.is_pending()),
    }
}

/// A draw command in short: what it is and where it goes.
fn shape(command: &DrawCommand) -> String {
    match command {
        DrawCommand::Level { camera_x, camera_y } => format!("level {camera_x} {camera_y}"),
        DrawCommand::Sprite { image, x, y, .. } => format!("sprite {image} {x} {y}"),
        DrawCommand::Text { x, y, glyphs, .. } => format!("text {x} {y} {}", glyphs.len()),
        DrawCommand::Meter { x, y, .. } => format!("meter {x} {y}"),
        DrawCommand::WindowPart { x, y, patches, .. } => {
            format!("window {x} {y} {}", patches.len())
        }
    }
}

fn shapes(stack: &ModeStack, ctx: &ModeContext) -> Vec<String> {
    let mut out = Vec::new();
    stack.draw(ctx, &mut out);
    out.iter().map(shape).collect()
}

#[test]
fn stack_size_is_pushes_less_pops() {
    let ctx = context(None);
    let mut stack = ModeStack::new();
    assert_eq!(stack.len(), 0);
    assert_eq!(stack.top(), None);
    // true pushes, false pops
    let ops = [true, true, false, true, true, true, false, false, true, false, false, false];
    let mut pushes = 0;
    let mut pops = 0;
    for (i, push) in ops.into_iter().enumerate() {
        if push {
            stack.push(mode(KINDS[i % KINDS.len()], &ctx));
            pushes += 1;
            assert_eq!(stack.top(), Some(KINDS[i % KINDS.len()]));
        } else {
            assert_eq!(stack.try_pop(), Ok(()));
            pops += 1;
        }
        assert_eq!(stack.len(), pushes - pops);
    }
    assert_eq!(stack.len(), 0);
}

#[test]
fn pop_takes_the_newest_mode() {
    let ctx = context(None);
    let mut stack = ModeStack::new();
    stack.push(mode(ModeKind::WalkAround, &ctx));
    stack.push(mode(ModeKind::MainMenu, &ctx));
    stack.push(mode(ModeKind::TextBox, &ctx));
    assert_eq!(stack.top(), Some(ModeKind::TextBox));
    assert_eq!(stack.try_pop(), Ok(()));
    assert_eq!(stack.top(), Some(ModeKind::MainMenu));
    assert_eq!(stack.try_pop(), Ok(()));
    assert_eq!(stack.top(), Some(ModeKind::WalkAround));
    assert_eq!(stack.try_pop(), Ok(()));
    assert_eq!(stack.top(), None);
}

#[test]
fn pop_of_an_empty_stack_is_an_error() {
    let ctx = context(None);
    let mut stack = ModeStack::new();
    assert_eq!(stack.try_pop(), Err(ModeStackError::Empty));
    assert_eq!(stack.len(), 0);
    stack.push(mode(ModeKind::Intro, &ctx));
    assert_eq!(stack.try_pop(), Ok(()));
    assert_eq!(stack.try_pop(), Err(ModeStackError::Empty));
    assert_eq!(stack.try_pop(), Err(ModeStackError::Empty));
    assert_eq!(stack.len(), 0);
}

#[test]
fn update_succeeds_only_for_the_kind_on_top() {
    for top in KINDS {
        for asked in KINDS {
            let mut ctx = context(None);
            let mut stack = ModeStack::new();
            stack.push(mode(ModeKind::WalkAround, &ctx));
            stack.push(mode(top, &ctx));
            let r = update(&mut stack, &mut ctx, asked);
            if asked == top {
                // The intro is over with its first update; the others have
                // only begun.
                assert_eq!(r, Ok(top != ModeKind::Intro));
            } else {
                assert_eq!(r, Err(ModeStackError::WrongMode { expected: asked, found: top }));
            }
            assert_eq!(stack.len(), 2);
            assert_eq!(stack.top(), Some(top));
        }
    }
}

#[test]
fn update_of_an_empty_stack_is_an_error() {
    for asked in KINDS {
        let mut ctx = context(None);
        let mut stack = ModeStack::new();
        assert_eq!(update(&mut stack, &mut ctx, asked), Err(ModeStackError::Empty));
        assert_eq!(stack.len(), 0);
    }
}

#[test]
fn update_of_another_kind_touches_nothing() {
    let mut ctx = context(None);
    let mut stack = ModeStack::new();
    stack.push(mode(ModeKind::WalkAround, &ctx));
    stack.push(mode(ModeKind::TextBox, &ctx));
    assert_eq!(stack.try_update_text_box_mode(&mut ctx).map(|p| p.is_pending()), Ok(true));
    assert_eq!(stack.try_update_text_box_mode(&mut ctx).map(|p| p.is_pending()), Ok(true));
    ctx.input.handle_key_down_event(KEY_DOWN);
    ctx.input.handle_key_down_event(KEY_X);
    let drawn = shapes(&stack, &ctx);
    let rng = ctx.rng.state();
    for asked in KINDS {
        if asked == ModeKind::TextBox {
            continue;
        }
        assert_eq!(
            update(&mut stack, &mut ctx, asked),
            Err(ModeStackError::WrongMode { expected: asked, found: ModeKind::TextBox })
        );
    }
    // Neither the walking below, nor the menu key, nor the intro's music got through.
    assert_eq!(shapes(&stack, &ctx), drawn);
    assert_eq!((ctx.actors[0].grid_x, ctx.actors[0].grid_y), (1, 1));
    assert_eq!((ctx.actors[0].offset_x, ctx.actors[0].offset_y), (0, 0));
    assert_eq!(ctx.rng.state(), rng);
    assert_eq!(ctx.fade.get(), [0, 0, 0, 0]);
    assert!(ctx.audio.take_commands().is_empty());
    assert!(ctx.options_to_save.is_none());
    match &stack.modes[..] {
        [Mode::WalkAround(walk), Mode::TextBox(text_box)] => {
            assert_eq!(walk.phase, WalkPhase::Start);
            assert_eq!(text_box.phase, TextBoxPhase::Revealing);
            assert_eq!(text_box.text.shown_chars(), 1);
        }
        _ => panic!("the stack holds what was pushed"),
    }
}

#[test]
fn update_reaches_the_top_mode_alone() {
    let mut ctx = context(None);
    let mut stack = ModeStack::new();
    stack.push(mode(ModeKind::TextBox, &ctx));
    stack.push(mode(ModeKind::TextBox, &ctx));
    for _ in 0..3 {
        assert_eq!(stack.try_update_text_box_mode(&mut ctx).map(|p| p.is_pending()), Ok(true));
    }
    match &stack.modes[..] {
        [Mode::TextBox(below), Mode::TextBox(top)] => {
            assert_eq!((below.phase, below.text.shown_chars()), (TextBoxPhase::Start, 5));
            assert_eq!((top.phase, top.text.shown_chars()), (TextBoxPhase::Revealing, 2));
        }
        _ => panic!("the stack holds what was pushed"),
    }
}

#[test]
fn modes_are_drawn_bottom_first_until_popped() {
    let mut ctx = context(None);
    let mut stack = ModeStack::new();
    stack.push(mode(ModeKind::WalkAround, &ctx));
    let below = shapes(&stack, &ctx);
    assert_eq!(below, ["level 40 24", "sprite coric.png 136 80", "sprite julis.png 120 96"]);
    stack.push(Mode::TextBox(Box::new(TextBox::new(&ctx.res, "Hey!"))));
    let both = shapes(&stack, &ctx);
    assert_eq!(both[..3], below[..]);
    assert_eq!(
        both[3..],
        [
            "window 48 128 1",
            "window 44 128 2",
            "window 48 124 2",
            "window 44 124 4",
            "text 52 132 4",
        ]
    );
    let mut polls = 0;
    let event = loop {
        polls += 1;
        if polls == 6 {
            ctx.input.handle_key_down_event(KEY_Z);
        }
        assert_eq!(stack.expect_top(ModeKind::TextBox), Ok(()));
        match stack.update_text_box_mode(&mut ctx) {
            // A text of which nothing is shown yet is not drawn.
            Poll::Pending => assert_eq!(shapes(&stack, &ctx).len(), if polls == 1 { 7 } else { 8 }),
            Poll::Ready(event) => break event,
        }
    };
    assert_eq!(event, TextBoxEvent::Done);
    assert_eq!(polls, 6);
    stack.pop();
    assert_eq!(shapes(&stack, &ctx), below);
    assert_eq!(stack.top(), Some(ModeKind::WalkAround));
}

#[test]
fn an_empty_stack_draws_nothing() {
    let ctx = context(None);
    assert!(shapes(&ModeStack::new(), &ctx).is_empty());
}

#[test]
fn the_top_mode_is_updated_and_taken_off() {
    let mut ctx = context(None);
    let mut stack = ModeStack::new();
    stack.push(mode(ModeKind::WalkAround, &ctx));
    stack.push(Mode::TextBox(Box::new(TextBox::new(&ctx.res, "Hi"))));
    assert_eq!(stack.expect_top(ModeKind::TextBox), Ok(()));
    assert_eq!(
        stack.expect_top(ModeKind::Battle),
        Err(ModeStackError::WrongMode { expected: ModeKind::Battle, found: ModeKind::TextBox })
    );
    // A poll to hide the text, one for each glyph, and one that finds confirm.
    assert!(stack.update_text_box_mode(&mut ctx).is_pending());
    assert!(stack.update_text_box_mode(&mut ctx).is_pending());
    assert!(stack.update_text_box_mode(&mut ctx).is_pending());
    ctx.input.handle_key_down_event(KEY_Z);
    assert!(matches!(stack.update_text_box_mode(&mut ctx), Poll::Ready(TextBoxEvent::Done)));
    stack.pop();
    assert_eq!(stack.len(), 1);
    assert_eq!(stack.expect_top(ModeKind::WalkAround), Ok(()));
    assert!(stack.update_walk_around_mode(&mut ctx).is_pending());
    stack.pop();
    assert_eq!(stack.len(), 0);
    assert_eq!(stack.expect_top(ModeKind::WalkAround), Err(ModeStackError::Empty));
}

