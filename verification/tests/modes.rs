use corics_quest::actor::{Actor, ActorType};
use corics_quest::aseprite::{Frame, FrameTag, Meta, Rect, Size, SpriteSheet};
use corics_quest::async_utils::Poll;
use corics_quest::audio::{Audio, AudioCommand, Music, Sfx};
use corics_quest::contexts::ModeContext;
use corics_quest::direction::Direction;
use corics_quest::draw::DrawCommand;
use corics_quest::enemy::EncounterGroup;
use corics_quest::fade::Fade;
use corics_quest::input::{
    Input, KEY_D, KEY_DOWN, KEY_LEFT, KEY_RIGHT, KEY_UP, KEY_X, KEY_Z,
};
use corics_quest::levels::{BlockedEdges, Layer, Level, TileSource, Tileset};
use corics_quest::modes::battle::{Battle, BattleEvent, BattlePhase};
use corics_quest::modes::credits::{Credits, CreditsEvent, CreditsPhase};
use corics_quest::modes::debug_menu::{DebugMenu, DebugMenuEvent};
use corics_quest::modes::ending::{Ending, EndingEvent, EndingPhase};
use corics_quest::modes::intro::{Intro, IntroEvent};
use corics_quest::modes::main_menu::{MainMenu, MainMenuEvent, MainMenuPhase};
use corics_quest::modes::options::{Options, OptionsEvent};
use corics_quest::modes::text_box::{TextBox, TextBoxEvent, TextBoxPhase};
use corics_quest::modes::title::{Title, TitleEvent, TitlePhase};
use corics_quest::modes::walk_around::{WalkAround, WalkAroundEvent, WalkPhase};
use corics_quest::modes::yes_no_prompt::{YesNoPrompt, YesNoPromptEvent};
use corics_quest::progress::{Item, Progress};
use corics_quest::random::Rng;
use corics_quest::resources::{NamedSheet, Resources, Texture, WindowTextures};
use corics_quest::saved_options::SavedOptions;

fn sheet(image: &str, tags: &[&str]) -> NamedSheet {
    NamedSheet {
        path: String::from(image),
        sheet: SpriteSheet {
            frames: (0..tags.len())
                .map(|i| Frame {
                    filename: String::new(),
                    frame: Rect { x: 16 * i as u16, y: 0, w: 16, h: 16 },
                    rotated: false,
                    trimmed: false,
                    sprite_source_size: Rect { x: 0, y: 0, w: 16, h: 16 },
                    source_size: Size { w: 16, h: 16 },
                    duration: 100,
                })
                .collect(),
            meta: Meta {
                app: String::new(),
                version: String::new(),
                image: String::from(image),
                format: String::new(),
                size: Size { w: 16, h: 16 },
                scale: String::new(),
                frame_tags: tags
                    .iter()
                    .enumerate()
                    .map(|(i, name)| FrameTag {
                        name: String::from(*name),
                        from: i,
                        to: i,
                        direction: String::from("forward"),
                        color: String::new(),
                    })
                    .collect(),
            },
        },
    }
}

const WALKING: [&str; 8] =
    ["face_s", "face_n", "face_e", "face_w", "walk_s", "walk_n", "walk_e", "walk_w"];

fn resources() -> Resources {
    let t = Texture { width: 8, height: 8 };
    Resources {
        font: Texture { width: 96, height: 128 },
        window_textures: WindowTextures::new(t, t, t, t).unwrap(),
        sprite_sheets: vec![
            sheet("coric.png", &WALKING),
            sheet("rat.png", &["idle"]),
            sheet("julis.png", &["face_s"]),
            sheet("title.png", &["idle"]),
            sheet("air.png", &["idle"]),
        ],
    }
}

fn layer(name: &str, wid: u16, hei: u16, tileset: Tileset, tiles: Vec<TileSource>) -> Layer {
    Layer::from_tiles(name, wid, hei, tileset, &tiles).unwrap()
}

fn field(encounters: Option<EncounterGroup>) -> Level {
    // Five tiles by three; the tile (3, 1) is ice, and the tile (1, 0) is a wall.
    let wall = Tileset::new(
        16,
        4,
        1,
        &vec![
            BlockedEdges { dir: Direction::North, tile_ids: vec![1] },
            BlockedEdges { dir: Direction::East, tile_ids: vec![1] },
            BlockedEdges { dir: Direction::South, tile_ids: vec![1] },
            BlockedEdges { dir: Direction::West, tile_ids: vec![1] },
        ],
    )
    .unwrap();
    let base = layer(
        "Base",
        5,
        3,
        Tileset::open_tileset(16, 4),
        vec![TileSource { src_x: 0, src_y: 64, px_x: 48, px_y: 16 }],
    );
    let props = layer("Props", 5, 3, wall, vec![TileSource { src_x: 16, src_y: 0, px_x: 16, px_y: 0 }]);
    Level::new("Field", 0, 0, 80, 48, vec![base, props], Vec::new(), encounters, None).unwrap()
}

fn actor(res: &Resources, kind: ActorType, image: &str, x: i32, y: i32) -> Actor {
    Actor::new(res.sprite_sheet(image).unwrap(), kind, x, y).unwrap()
}

fn context(encounters: Option<EncounterGroup>) -> ModeContext {
    let res = resources();
    let actors = vec![
        actor(&res, ActorType::Player, "coric.png", 1, 1),
        actor(&res, ActorType::Julis, "julis.png", 0, 2),
    ];
    ModeContext {
        res,
        input: Input::new(),
        audio: Audio::new(100, 100),
        rng: Rng::new(1),
        progress: Progress::new(),
        level: field(encounters),
        actors,
        fade: Fade::new(),
        encounter_steps: 3,
        options_to_save: None,
    }
}

fn press(ctx: &mut ModeContext, key: u16) {
    ctx.input.handle_key_down_event(key);
    ctx.input.handle_key_up_event(key);
}

fn sounds(ctx: &mut ModeContext) -> Vec<Sfx> {
    ctx.audio
        .take_commands()
        .into_iter()
        .filter_map(|c| match c {
            AudioCommand::PlaySfx { sfx, .. } => Some(sfx),
            _ => None,
        })
        .collect()
}

#[test]
fn text_box_reveals_its_text_and_waits_for_confirm() {
    let mut ctx = context(None);
    let mut text_box = TextBox::new(&ctx.res, "Hey!");
    assert_eq!(text_box.phase, TextBoxPhase::Start);
    // One poll to hide the text, and one for each of its four glyphs.
    for shown in 0..4 {
        assert!(text_box.update(&mut ctx).is_pending());
        assert_eq!(text_box.text.shown_chars(), shown);
        assert_eq!(text_box.phase, TextBoxPhase::Revealing);
    }
    assert!(text_box.update(&mut ctx).is_pending());
    assert_eq!(text_box.text.shown_chars(), 4);
    assert_eq!(text_box.phase, TextBoxPhase::Waiting);
    for _ in 0..10 {
        assert!(text_box.update(&mut ctx).is_pending());
    }
    press(&mut ctx, KEY_X);
    assert!(text_box.update(&mut ctx).is_pending());
    assert!(sounds(&mut ctx).is_empty());
    press(&mut ctx, KEY_Z);
    assert!(matches!(text_box.update(&mut ctx), Poll::Ready(TextBoxEvent::Done)));
    assert_eq!(sounds(&mut ctx), vec![Sfx::Cursor]);
    assert_eq!(text_box.phase, TextBoxPhase::Start);
}

#[test]
fn confirm_does_not_skip_the_reveal() {
    let mut ctx = context(None);
    let mut text_box = TextBox::new(&ctx.res, "ab");
    ctx.input.handle_key_down_event(KEY_Z);
    assert!(text_box.update(&mut ctx).is_pending());
    assert!(text_box.update(&mut ctx).is_pending());
    assert!(text_box.update(&mut ctx).is_pending());
    assert_eq!(text_box.phase, TextBoxPhase::Waiting);
    assert!(text_box.update(&mut ctx).is_ready());
}

#[test]
fn prompt_answers_what_the_cursor_is_at() {
    let mut ctx = context(None);
    let mut prompt = YesNoPrompt::new(&ctx.res, "Save?", "Yes", "No", true);
    assert_eq!(prompt.no_x_diff, 8);
    while prompt.phase != corics_quest::modes::yes_no_prompt::YesNoPhase::Waiting {
        assert!(prompt.update(&mut ctx).is_pending());
    }
    press(&mut ctx, KEY_RIGHT);
    assert!(prompt.update(&mut ctx).is_pending());
    assert!(!prompt.choice);
    ctx.input.reset_keys_pressed();
    press(&mut ctx, KEY_Z);
    assert!(matches!(prompt.update(&mut ctx), Poll::Ready(YesNoPromptEvent::No)));
    assert_eq!(sounds(&mut ctx), vec![Sfx::Cursor, Sfx::Cancel]);
    ctx.input.reset_keys_pressed();
    while prompt.phase != corics_quest::modes::yes_no_prompt::YesNoPhase::Waiting {
        assert!(prompt.update(&mut ctx).is_pending());
    }
    press(&mut ctx, KEY_LEFT);
    assert!(prompt.update(&mut ctx).is_pending());
    assert!(prompt.choice);
    ctx.input.reset_keys_pressed();
    press(&mut ctx, KEY_Z);
    assert!(matches!(prompt.update(&mut ctx), Poll::Ready(YesNoPromptEvent::Yes)));
    assert_eq!(sounds(&mut ctx), vec![Sfx::Cursor, Sfx::Confirm]);
}

#[test]
fn intro_starts_its_music_and_is_done() {
    let mut ctx = context(None);
    let mut intro = Intro::new(&ctx.res).unwrap();
    assert!(matches!(intro.update(&mut ctx), Poll::Ready(IntroEvent::Done)));
    assert!(matches!(
        ctx.audio.take_commands()[..],
        [AudioCommand::PlayMusic { music: Music::Intro, .. }]
    ));
    let mut res = resources();
    res.sprite_sheets.pop();
    assert!(Intro::new(&res).is_none());
}

#[test]
fn credits_fade_in_wait_and_fade_out() {
    let mut ctx = context(None);
    let mut credits = Credits::new(&ctx.res, "1.2.3");
    assert_eq!(credits.version_text.glyph_count(), 7);
    // Fifty-nine frames on the way, then the frame that is clear.
    for _ in 0..59 {
        assert!(credits.update(&mut ctx).is_pending());
        assert_eq!(credits.phase, CreditsPhase::FadeIn);
    }
    assert_eq!(ctx.fade.get()[3], 1000 - 1000 * 59 / 60 - 1);
    assert!(credits.update(&mut ctx).is_pending());
    assert_eq!(credits.phase, CreditsPhase::Waiting);
    assert_eq!(ctx.fade.get()[3], 0);
    assert!(credits.update(&mut ctx).is_pending());
    press(&mut ctx, KEY_X);
    let mut polls = 0;
    loop {
        polls += 1;
        if let Poll::Ready(CreditsEvent::Done) = credits.update(&mut ctx) {
            break;
        }
        ctx.input.reset_keys_pressed();
    }
    assert_eq!(polls, 60);
    assert_eq!(ctx.fade.get()[3], 1000);
    assert_eq!(sounds(&mut ctx), vec![Sfx::Cancel]);
    assert_eq!(credits.phase, CreditsPhase::Start);
}

#[test]
fn ending_types_its_paragraphs_slowly() {
    let mut ctx = context(None);
    let mut ending = Ending::new(&ctx.res);
    let glyphs: Vec<usize> = ending.texts.iter().map(|t| t.glyph_count()).collect();
    let mut polls = 0usize;
    while ending.phase != EndingPhase::Waiting {
        assert!(ending.update(&mut ctx).is_pending());
        polls += 1;
        assert!(polls < 10_000);
    }
    // A poll to start, five ticks a glyph, and 150 ticks before each
    // paragraph but the first.
    assert_eq!(polls, 1 + 5 * glyphs.iter().sum::<usize>() + 3 * 150);
    assert!(ending.text_shown);
    assert!(ending.texts.iter().all(|t| t.all_chars_shown()));
    press(&mut ctx, KEY_Z);
    let mut polls = 0;
    loop {
        polls += 1;
        if let Poll::Ready(EndingEvent::Credits) = ending.update(&mut ctx) {
            break;
        }
        ctx.input.reset_keys_pressed();
    }
    assert_eq!(polls, 60);
    assert!(ending.texts.iter().all(|t| t.shown_chars() == 0));
    // The second time the text is there at once.
    assert!(ending.update(&mut ctx).is_pending());
    assert_eq!(ending.phase, EndingPhase::FadeIn);
    assert!(ending.texts.iter().all(|t| t.all_chars_shown()));
}

#[test]
fn title_waits_for_a_key_before_its_menu() {
    let mut ctx = context(None);
    let mut title = Title::new(&ctx.res, false).unwrap();
    ctx.input.handle_key_down_event(KEY_Z);
    while title.phase != TitlePhase::WaitConfirm {
        assert!(title.update(&mut ctx).is_pending());
    }
    assert!(!title.confirm_pressed);
    assert!(title.update(&mut ctx).is_pending());
    assert!(title.confirm_pressed);
    assert_eq!(title.phase, TitlePhase::Menu);
    ctx.input.reset_keys_pressed();
    press(&mut ctx, KEY_DOWN);
    assert!(title.update(&mut ctx).is_pending());
    assert_eq!(title.selection, 1);
    ctx.input.reset_keys_pressed();
    press(&mut ctx, KEY_DOWN);
    assert!(title.update(&mut ctx).is_pending());
    assert_eq!(title.selection, 0);
    ctx.input.reset_keys_pressed();
    press(&mut ctx, KEY_UP);
    assert!(title.update(&mut ctx).is_pending());
    assert_eq!(title.selection, 1);
    ctx.input.reset_keys_pressed();
    press(&mut ctx, KEY_Z);
    assert!(matches!(title.update(&mut ctx), Poll::Ready(TitleEvent::Options)));
    // The menu opens at once from now on.
    ctx.input.reset_keys_pressed();
    assert!(title.update(&mut ctx).is_pending());
    assert_eq!(title.phase, TitlePhase::Menu);
    press(&mut ctx, KEY_UP);
    assert!(title.update(&mut ctx).is_pending());
    ctx.input.reset_keys_pressed();
    press(&mut ctx, KEY_D);
    assert!(matches!(title.update(&mut ctx), Poll::Ready(TitleEvent::NewGame(false))));
}

#[test]
fn title_offers_to_continue_a_saved_game() {
    let mut ctx = context(None);
    let mut title = Title::new(&ctx.res, true).unwrap();
    title.confirm_pressed = true;
    assert_eq!(title.selection, 1);
    assert!(title.update(&mut ctx).is_pending());
    press(&mut ctx, KEY_Z);
    assert!(matches!(title.update(&mut ctx), Poll::Ready(TitleEvent::Continue)));
    ctx.input.reset_keys_pressed();
    assert!(title.update(&mut ctx).is_pending());
    press(&mut ctx, KEY_UP);
    assert!(title.update(&mut ctx).is_pending());
    ctx.input.reset_keys_pressed();
    press(&mut ctx, KEY_Z);
    assert!(matches!(title.update(&mut ctx), Poll::Ready(TitleEvent::NewGame(true))));
}

#[test]
fn options_change_the_volumes_and_hand_them_on() {
    let mut ctx = context(None);
    let mut options = Options::new(&ctx.res, 100, 50, false).unwrap();
    assert!(options.update(&mut ctx).is_pending());
    press(&mut ctx, KEY_DOWN);
    assert!(options.update(&mut ctx).is_pending());
    assert_eq!(options.selection, 1);
    ctx.input.reset_keys_pressed();
    for expected in [90, 80, 70] {
        press(&mut ctx, KEY_LEFT);
        assert!(options.update(&mut ctx).is_pending());
        assert_eq!(ctx.audio.get_music_volume_custom(), expected);
        ctx.input.reset_keys_pressed();
    }
    press(&mut ctx, KEY_RIGHT);
    assert!(options.update(&mut ctx).is_pending());
    assert_eq!(ctx.audio.get_music_volume_custom(), 80);
    assert_eq!(options.music_meter.get(), (80, 100));
    assert!(options.options_changed);
    ctx.input.reset_keys_pressed();
    press(&mut ctx, KEY_DOWN);
    assert!(options.update(&mut ctx).is_pending());
    ctx.input.reset_keys_pressed();
    press(&mut ctx, KEY_RIGHT);
    assert!(options.update(&mut ctx).is_pending());
    assert_eq!(ctx.audio.get_sound_volume_custom(), 100);
    ctx.input.reset_keys_pressed();
    assert!(ctx.options_to_save.is_none());
    press(&mut ctx, KEY_X);
    assert!(matches!(options.update(&mut ctx), Poll::Ready(OptionsEvent::Done)));
    assert_eq!(ctx.options_to_save, Some(SavedOptions { music_volume: 80, sound_volume: 100 }));
    assert!(!options.options_changed);
}

#[test]
fn options_lead_to_the_credits_and_out() {
    let mut ctx = context(None);
    let mut options = Options::new(&ctx.res, 0, 0, true).unwrap();
    assert!(options.update(&mut ctx).is_pending());
    press(&mut ctx, KEY_UP);
    assert!(options.update(&mut ctx).is_pending());
    assert_eq!(options.selection, 4);
    ctx.input.reset_keys_pressed();
    press(&mut ctx, KEY_UP);
    assert!(options.update(&mut ctx).is_pending());
    ctx.input.reset_keys_pressed();
    press(&mut ctx, KEY_Z);
    assert!(matches!(options.update(&mut ctx), Poll::Ready(OptionsEvent::Credits)));
    ctx.input.reset_keys_pressed();
    assert!(options.update(&mut ctx).is_pending());
    press(&mut ctx, KEY_DOWN);
    assert!(options.update(&mut ctx).is_pending());
    ctx.input.reset_keys_pressed();
    press(&mut ctx, KEY_Z);
    assert!(matches!(options.update(&mut ctx), Poll::Ready(OptionsEvent::Quit)));
    assert!(ctx.options_to_save.is_none());
    assert!(Options::new(&ctx.res, i32::MAX, 0, false).is_none());
}

#[test]
fn main_menu_uses_items_and_magic() {
    let mut ctx = context(None);
    ctx.progress.hp = 10;
    ctx.progress.mp = 5;
    ctx.progress.magic[0].known = true;
    ctx.progress.maybe_give_items(Item::Salve, 2);
    ctx.progress.maybe_give_items(Item::XTonic, 1);
    let mut menu = MainMenu::new(&ctx.res, &ctx.progress);
    assert!(menu.update(&mut ctx).is_pending());
    assert_eq!(menu.phase, MainMenuPhase::Top { selection: 0 });
    let step = |menu: &mut MainMenu, ctx: &mut ModeContext, key: u16| {
        press(ctx, key);
        let r = menu.update(ctx);
        ctx.input.reset_keys_pressed();
        r
    };
    assert!(step(&mut menu, &mut ctx, KEY_DOWN).is_pending());
    assert!(step(&mut menu, &mut ctx, KEY_Z).is_pending());
    assert_eq!(menu.phase, MainMenuPhase::Magic { selection: 0 });
    assert!(step(&mut menu, &mut ctx, KEY_DOWN).is_pending());
    assert!(step(&mut menu, &mut ctx, KEY_Z).is_pending());
    // Heal costs four magic points and restores half of the hit points.
    assert_eq!((ctx.progress.hp, ctx.progress.mp), (35, 1));
    assert!(step(&mut menu, &mut ctx, KEY_Z).is_pending());
    assert_eq!((ctx.progress.hp, ctx.progress.mp), (35, 1));
    assert!(step(&mut menu, &mut ctx, KEY_X).is_pending());
    assert_eq!(menu.phase, MainMenuPhase::Top { selection: 1 });
    assert!(step(&mut menu, &mut ctx, KEY_DOWN).is_pending());
    assert!(step(&mut menu, &mut ctx, KEY_Z).is_pending());
    assert_eq!(menu.phase, MainMenuPhase::Item { selection: 0 });
    assert!(step(&mut menu, &mut ctx, KEY_DOWN).is_pending());
    assert!(step(&mut menu, &mut ctx, KEY_Z).is_pending());
    // A salve restores three tenths of the hit points.
    assert_eq!((ctx.progress.hp, ctx.progress.items[0].amount), (50, 1));
    assert!(step(&mut menu, &mut ctx, KEY_Z).is_pending());
    assert_eq!((ctx.progress.hp, ctx.progress.items[0].amount), (50, 1));
    assert!(step(&mut menu, &mut ctx, KEY_UP).is_pending());
    assert!(step(&mut menu, &mut ctx, KEY_UP).is_pending());
    assert_eq!(menu.phase, MainMenuPhase::Item { selection: 4 });
    assert!(step(&mut menu, &mut ctx, KEY_Z).is_pending());
    assert_eq!((ctx.progress.mp, ctx.progress.items[3].amount), (15, 0));
    assert!(step(&mut menu, &mut ctx, KEY_Z).is_pending());
    assert_eq!(ctx.progress.items[3].amount, 0);
    assert!(step(&mut menu, &mut ctx, KEY_X).is_pending());
    assert_eq!(menu.phase, MainMenuPhase::Top { selection: 2 });
    assert!(matches!(step(&mut menu, &mut ctx, KEY_X), Poll::Ready(MainMenuEvent::Done)));
    assert_eq!(menu.phase, MainMenuPhase::Start);
}

#[test]
fn debug_menu_asks_for_what_its_entries_stand_for() {
    let mut ctx = context(None);
    let mut menu = DebugMenu::new(&ctx.res);
    let step = |menu: &mut DebugMenu, ctx: &mut ModeContext, key: u16| {
        press(ctx, key);
        let r = menu.update(ctx);
        ctx.input.reset_keys_pressed();
        r
    };
    assert!(menu.update(&mut ctx).is_pending());
    assert!(step(&mut menu, &mut ctx, KEY_DOWN).is_pending());
    assert!(matches!(step(&mut menu, &mut ctx, KEY_Z), Poll::Ready(DebugMenuEvent::GainLevel)));
    assert!(menu.update(&mut ctx).is_pending());
    for _ in 0..3 {
        assert!(step(&mut menu, &mut ctx, KEY_DOWN).is_pending());
    }
    assert!(step(&mut menu, &mut ctx, KEY_Z).is_pending());
    for _ in 0..3 {
        assert!(step(&mut menu, &mut ctx, KEY_DOWN).is_pending());
    }
    match step(&mut menu, &mut ctx, KEY_Z) {
        Poll::Ready(DebugMenuEvent::SetWeapon(Some(w))) => {
            assert_eq!((w.name.as_str(), w.attack), ("Long Sword", 7));
        }
        _ => panic!("the fourth entry is the long sword"),
    }
    assert!(menu.update(&mut ctx).is_pending());
    assert!(step(&mut menu, &mut ctx, KEY_UP).is_pending());
    assert!(step(&mut menu, &mut ctx, KEY_UP).is_pending());
    assert!(step(&mut menu, &mut ctx, KEY_Z).is_pending());
    assert!(step(&mut menu, &mut ctx, KEY_UP).is_pending());
    assert!(matches!(
        step(&mut menu, &mut ctx, KEY_Z),
        Poll::Ready(DebugMenuEvent::Warp { level_id: "Fire_1", x: 9, y: 21 })
    ));
    assert!(menu.update(&mut ctx).is_pending());
    assert!(step(&mut menu, &mut ctx, KEY_UP).is_pending());
    assert!(matches!(step(&mut menu, &mut ctx, KEY_Z), Poll::Ready(DebugMenuEvent::Quit)));
    assert!(menu.update(&mut ctx).is_pending());
    assert!(matches!(step(&mut menu, &mut ctx, KEY_D), Poll::Ready(DebugMenuEvent::Cancel)));
}

fn walk(walk: &mut WalkAround, ctx: &mut ModeContext) -> Poll<WalkAroundEvent> {
    let r = walk.update(ctx);
    ctx.input.reset_keys_pressed();
    r
}

#[test]
fn player_walks_a_tile_in_sixteen_ticks() {
    let mut ctx = context(None);
    let mut mode = WalkAround::new();
    assert!(walk(&mut mode, &mut ctx).is_pending());
    assert_eq!(mode.phase, WalkPhase::Idle);
    ctx.input.handle_key_down_event(KEY_DOWN);
    for tick in 1..=16 {
        assert!(walk(&mut mode, &mut ctx).is_pending());
        assert_eq!(mode.phase, WalkPhase::Walking { dir: Direction::South });
        assert_eq!((ctx.actors[0].grid_x, ctx.actors[0].grid_y), (1, 2));
        assert_eq!((ctx.actors[0].offset_x, ctx.actors[0].offset_y), (0, tick - 16));
    }
    ctx.input.handle_key_up_event(KEY_DOWN);
    assert!(walk(&mut mode, &mut ctx).is_pending());
    assert_eq!(mode.phase, WalkPhase::Idle);
    assert_eq!(ctx.actors[0].face_dir, Direction::South);
    // A step in a level without encounters counts for the town.
    assert_eq!(ctx.progress.steps, vec![0, 0, 0, 0, 0, 0, 1]);
    assert_eq!(ctx.encounter_steps, 3);
}

#[test]
fn walls_and_people_bar_the_way() {
    let mut ctx = context(None);
    let mut mode = WalkAround::new();
    assert!(walk(&mut mode, &mut ctx).is_pending());
    // The wall lies to the north of the player.
    ctx.input.handle_key_down_event(KEY_UP);
    assert!(walk(&mut mode, &mut ctx).is_pending());
    assert_eq!(mode.phase, WalkPhase::Idle);
    assert_eq!((ctx.actors[0].grid_x, ctx.actors[0].grid_y), (1, 1));
    assert_eq!(ctx.actors[0].face_dir, Direction::North);
    ctx.input.handle_key_up_event(KEY_UP);
    // Julis stands to the south-west: one step south, then she is in the way.
    ctx.input.handle_key_down_event(KEY_DOWN);
    for _ in 0..17 {
        assert!(walk(&mut mode, &mut ctx).is_pending());
    }
    ctx.input.handle_key_up_event(KEY_DOWN);
    ctx.input.handle_key_down_event(KEY_LEFT);
    assert!(walk(&mut mode, &mut ctx).is_pending());
    assert_eq!((ctx.actors[0].grid_x, ctx.actors[0].grid_y), (1, 2));
    assert_eq!(mode.phase, WalkPhase::Idle);
    ctx.input.handle_key_up_event(KEY_LEFT);
    press(&mut ctx, KEY_Z);
    assert!(matches!(walk(&mut mode, &mut ctx), Poll::Ready(WalkAroundEvent::TalkActor(1))));
    assert_eq!(mode.phase, WalkPhase::Start);
}

#[test]
fn keys_lead_to_the_menus() {
    let mut ctx = context(None);
    let mut mode = WalkAround::new();
    press(&mut ctx, KEY_X);
    assert!(walk(&mut mode, &mut ctx).is_pending());
    press(&mut ctx, KEY_Z);
    assert!(walk(&mut mode, &mut ctx).is_pending());
    press(&mut ctx, KEY_X);
    assert!(matches!(walk(&mut mode, &mut ctx), Poll::Ready(WalkAroundEvent::MainMenu)));
    assert!(walk(&mut mode, &mut ctx).is_pending());
    press(&mut ctx, KEY_D);
    assert!(matches!(walk(&mut mode, &mut ctx), Poll::Ready(WalkAroundEvent::DebugMenu)));
}

#[test]
fn the_edge_of_the_level_ends_the_update() {
    let mut ctx = context(None);
    ctx.actors[0].grid_x = 0;
    let mut mode = WalkAround::new();
    assert!(walk(&mut mode, &mut ctx).is_pending());
    ctx.input.handle_key_down_event(KEY_LEFT);
    assert!(matches!(
        walk(&mut mode, &mut ctx),
        Poll::Ready(WalkAroundEvent::TouchLevelEdge(Direction::West))
    ));
    assert_eq!((ctx.actors[0].grid_x, ctx.actors[0].offset_x), (0, 0));
}

#[test]
fn player_slides_over_ice() {
    let mut ctx = context(None);
    ctx.actors[0].grid_x = 2;
    let mut mode = WalkAround::new();
    assert!(walk(&mut mode, &mut ctx).is_pending());
    press(&mut ctx, KEY_RIGHT);
    ctx.input.handle_key_down_event(KEY_RIGHT);
    assert!(walk(&mut mode, &mut ctx).is_pending());
    ctx.input.handle_key_up_event(KEY_RIGHT);
    // One tile onto the ice and one tile on: thirty-two ticks without a key.
    for _ in 1..32 {
        assert!(walk(&mut mode, &mut ctx).is_pending());
        assert_eq!(mode.phase, WalkPhase::Walking { dir: Direction::East });
    }
    assert!(walk(&mut mode, &mut ctx).is_pending());
    assert_eq!(mode.phase, WalkPhase::Idle);
    assert_eq!((ctx.actors[0].grid_x, ctx.actors[0].grid_y), (4, 1));
    assert_eq!(ctx.progress.steps[6], 1);
}

#[test]
fn steps_lead_to_encounters() {
    let mut ctx = context(Some(EncounterGroup::Wilderness2));
    ctx.encounter_steps = 2;
    let mut mode = WalkAround::new();
    assert!(walk(&mut mode, &mut ctx).is_pending());
    ctx.input.handle_key_down_event(KEY_DOWN);
    for _ in 0..17 {
        assert!(walk(&mut mode, &mut ctx).is_pending());
    }
    assert_eq!(ctx.encounter_steps, 1);
    assert_eq!(ctx.progress.steps, vec![0, 1, 0, 0, 0, 0, 0]);
    ctx.input.handle_key_up_event(KEY_DOWN);
    ctx.input.handle_key_down_event(KEY_RIGHT);
    for _ in 0..16 {
        assert!(walk(&mut mode, &mut ctx).is_pending());
    }
    assert!(matches!(walk(&mut mode, &mut ctx), Poll::Ready(WalkAroundEvent::Encounter)));
    assert_eq!(ctx.progress.steps[1], 2);
    assert_eq!(mode.phase, WalkPhase::Start);
}

#[test]
fn camera_follows_the_player_in_large_levels() {
    let mut ctx = context(None);
    let mode = WalkAround::new();
    let mut out = Vec::new();
    mode.draw(&ctx, &mut out);
    // The level is smaller than the screen: it is shown from its middle.
    assert!(matches!(out[0], DrawCommand::Level { camera_x: 40, camera_y: 24 }));
    assert_eq!(out.len(), 3);
    match &out[1] {
        DrawCommand::Sprite { image, x, y, .. } => {
            assert_eq!(image, "coric.png");
            assert_eq!((*x, *y), (16 + 160 - 40, 16 + 88 - 24));
        }
        _ => panic!("the player is drawn after the level"),
    }
    ctx.level.px_wid = 640;
    ctx.level.px_hei = 400;
    ctx.actors[1].visible = false;
    out.clear();
    mode.draw(&ctx, &mut out);
    assert!(matches!(out[0], DrawCommand::Level { camera_x: 160, camera_y: 88 }));
    assert_eq!(out.len(), 2);
    ctx.actors[0].grid_x = 20;
    ctx.actors[0].grid_y = 30;
    ctx.actors[0].offset_x = -5;
    out.clear();
    mode.draw(&ctx, &mut out);
    assert!(matches!(out[0], DrawCommand::Level { camera_x: 323, camera_y: 312 }));
}

fn battle_step(battle: &mut Battle, ctx: &mut ModeContext, key: Option<u16>) -> Poll<BattleEvent> {
    if let Some(key) = key {
        press(ctx, key);
    }
    let r = battle.update(ctx);
    ctx.input.reset_keys_pressed();
    r
}

fn until(battle: &mut Battle, ctx: &mut ModeContext, wanted: fn(&BattlePhase) -> bool) {
    let mut polls = 0;
    while !wanted(&battle.phase) {
        assert!(battle_step(battle, ctx, None).is_pending());
        polls += 1;
        assert!(polls < 1000);
    }
}

#[test]
fn battle_is_won_by_fighting() {
    let mut ctx = context(None);
    let mut battle =
        Battle::new(&ctx.res, 50, 15, EncounterGroup::Wilderness1.enemy(0), false).unwrap();
    let mut hits = 0;
    let event = loop {
        until(&mut battle, &mut ctx, |p| matches!(p, BattlePhase::ActionMenu { .. }));
        assert!(battle_step(&mut battle, &mut ctx, Some(KEY_Z)).is_pending());
        // The rat takes 11 points with every hit: twice the attack of 6, less its defense of 1.
        assert!(matches!(
            battle.phase,
            BattlePhase::EnemyHit { ticks: 1, damage: 11, magic: None }
        ));
        hits += 1;
        until(&mut battle, &mut ctx, |p| matches!(p, BattlePhase::MessageShown { .. }));
        assert_eq!(battle.enemy.hp, (32 - 11 * hits).max(0));
        let mut r = battle_step(&mut battle, &mut ctx, Some(KEY_Z));
        while r.is_pending() && !matches!(battle.phase, BattlePhase::ActionMenu { .. }) {
            let key = if matches!(battle.phase, BattlePhase::MessageShown { .. }) {
                Some(KEY_Z)
            } else {
                None
            };
            r = battle_step(&mut battle, &mut ctx, key);
        }
        if let Poll::Ready(event) = r {
            break event;
        }
    };
    assert_eq!(event, BattleEvent::Victory);
    assert_eq!(hits, 3);
    // The rat hit back twice for 5 points: twice its attack of 4, less the defense of 3.
    assert_eq!(ctx.progress.hp, 40);
    assert_eq!(ctx.progress.exp, 10);
    assert_eq!(ctx.progress.level, 1);
    assert_eq!(battle.phase, BattlePhase::Start);
}

#[test]
fn enemy_blinks_for_twenty_ticks() {
    let mut ctx = context(None);
    let mut battle =
        Battle::new(&ctx.res, 50, 15, EncounterGroup::Wilderness1.enemy(0), false).unwrap();
    until(&mut battle, &mut ctx, |p| matches!(p, BattlePhase::ActionMenu { .. }));
    assert!(battle_step(&mut battle, &mut ctx, Some(KEY_Z)).is_pending());
    let mut seen = Vec::new();
    while matches!(battle.phase, BattlePhase::EnemyHit { .. }) {
        seen.push(battle.enemy_visible);
        assert!(battle_step(&mut battle, &mut ctx, None).is_pending());
    }
    let cycle = [false, false, true, true];
    assert_eq!(seen, cycle.repeat(5));
    assert!(battle.enemy_visible);
    assert!(battle.change_visible);
}

#[test]
fn running_ends_the_battle_unless_the_enemy_is_a_boss() {
    let mut ctx = context(None);
    let mut battle =
        Battle::new(&ctx.res, 50, 15, EncounterGroup::Wilderness1.enemy(0), false).unwrap();
    until(&mut battle, &mut ctx, |p| matches!(p, BattlePhase::ActionMenu { .. }));
    assert!(battle_step(&mut battle, &mut ctx, Some(KEY_LEFT)).is_pending());
    assert_eq!(battle.phase, BattlePhase::ActionMenu { selection: 3 });
    assert!(battle_step(&mut battle, &mut ctx, Some(KEY_Z)).is_pending());
    until(&mut battle, &mut ctx, |p| matches!(p, BattlePhase::MessageShown { .. }));
    assert!(matches!(
        battle_step(&mut battle, &mut ctx, Some(KEY_Z)),
        Poll::Ready(BattleEvent::RanAway)
    ));
    let mut boss = Battle::new(&ctx.res, 50, 15, EncounterGroup::Wilderness1.enemy(0), true).unwrap();
    until(&mut boss, &mut ctx, |p| matches!(p, BattlePhase::ActionMenu { .. }));
    assert!(battle_step(&mut boss, &mut ctx, Some(KEY_LEFT)).is_pending());
    assert!(battle_step(&mut boss, &mut ctx, Some(KEY_Z)).is_pending());
    assert_eq!(boss.phase, BattlePhase::ActionMenu { selection: 3 });
}

#[test]
fn magic_and_items_are_used_in_battle() {
    let mut ctx = context(None);
    ctx.progress.hp = 20;
    ctx.progress.magic[0].known = true;
    ctx.progress.magic[1].known = true;
    ctx.progress.maybe_give_items(Item::Tonic, 1);
    let mut enemy = EncounterGroup::EarthCastle.enemy(3);
    enemy.sprite_path = "rat.png";
    let mut battle = Battle::new(&ctx.res, 50, 15, enemy, false).unwrap();
    until(&mut battle, &mut ctx, |p| matches!(p, BattlePhase::ActionMenu { .. }));
    assert!(battle_step(&mut battle, &mut ctx, Some(KEY_RIGHT)).is_pending());
    assert!(battle_step(&mut battle, &mut ctx, Some(KEY_Z)).is_pending());
    assert_eq!(battle.phase, BattlePhase::MagicMenu { selection: 0 });
    // The third entry is magic that the player does not know.
    assert!(battle_step(&mut battle, &mut ctx, Some(KEY_DOWN)).is_pending());
    assert_eq!(battle.phase, BattlePhase::MagicMenu { selection: 0 });
    assert!(battle_step(&mut battle, &mut ctx, Some(KEY_RIGHT)).is_pending());
    assert!(battle_step(&mut battle, &mut ctx, Some(KEY_DOWN)).is_pending());
    assert_eq!(battle.phase, BattlePhase::MagicMenu { selection: 3 });
    assert!(battle_step(&mut battle, &mut ctx, Some(KEY_Z)).is_pending());
    assert_eq!(battle.phase, BattlePhase::MagicMenu { selection: 3 });
    assert!(battle_step(&mut battle, &mut ctx, Some(KEY_UP)).is_pending());
    assert!(battle_step(&mut battle, &mut ctx, Some(KEY_Z)).is_pending());
    // Heal: four magic points for half of the hit points.
    assert_eq!((ctx.progress.hp, ctx.progress.mp), (45, 11));
    assert!(matches!(battle.phase, BattlePhase::MessageReveal { .. }));
    assert!(battle.follow_up.is_none());
}
