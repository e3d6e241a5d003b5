use corics_quest::actor::ActorError;
use corics_quest::aseprite::{Frame, FrameTag, Meta, Rect, Size, SpriteSheet};
use corics_quest::audio::{AudioCommand, Sfx};
use corics_quest::contexts::SetupError;
use corics_quest::direction::Direction;
use corics_quest::draw::DrawCommand;
use corics_quest::driver::FRAME_TIME;
use corics_quest::enemy::EncounterGroup;
use corics_quest::game::Game;
use corics_quest::input::{KEY_D, KEY_DOWN, KEY_RIGHT, KEY_UP, KEY_X, KEY_Z};
use corics_quest::levels::{
    ActorSource, Layer, Level, LevelEntry, LevelError, LevelSet, NeighbourLevel, Tileset,
};
use corics_quest::modes::ModeKind;
use corics_quest::progress::Item;
use corics_quest::resources::{NamedSheet, Resources, Texture, WindowTextures};
use corics_quest::saved_options::SavedOptions;
use corics_quest::script::{AfterTexts, ScriptError, ScriptState};

fn sheet(image: &str, tags: &[&str]) -> NamedSheet {
    NamedSheet {
        path: String::from(image),
        sheet: SpriteSheet {
            frames: (0..tags.len())
                .map(|i| Frame {
                    filename: String::new(),
                    frame: Rect { x: 16 * i as u16, y: 0, w: 16, h: 16 },
                    rotated: false,
                    trimmed: false,
                    sprite_source_size: Rect { x: 0, y: 0, w: 16, h: 16 },
                    source_size: Size { w: 16, h: 16 },
                    duration: 100,
                })
                .collect(),
            meta: Meta {
                app: String::new(),
                version: String::new(),
                image: String::from(image),
                format: String::new(),
                size: Size { w: 16, h: 16 },
                scale: String::new(),
                frame_tags: tags
                    .iter()
                    .enumerate()
                    .map(|(i, name)| FrameTag {
                        name: String::from(*name),
                        from: i,
                        to: i,
                        direction: String::from("forward"),
                        color: String::new(),
                    })
                    .collect(),
            },
        },
    }
}

const WALKING: [&str; 8] =
    ["face_s", "face_n", "face_e", "face_w", "walk_s", "walk_n", "walk_e", "walk_w"];

fn resources() -> Resources {
    let t = Texture { width: 8, height: 8 };
    Resources::new(
        Texture { width: 96, height: 128 },
        WindowTextures::new(t, t, t, t).unwrap(),
        vec![
            sheet("coric.png", &WALKING),
            sheet("ducille.png", &["face_s"]),
            sheet("rat.png", &["idle"]),
        ],
    )
}

fn level(
    name: &str,
    world_x: i32,
    neighbours: Vec<NeighbourLevel>,
    encounters: Option<EncounterGroup>,
) -> Level {
    let layer = |name: &str| {
        Layer::from_tiles(name, 10, 8, Tileset::open_tileset(16, 4), &Vec::new()).unwrap()
    };
    Level::new(name, world_x, 0, 160, 128, vec![layer("Base"), layer("Props")], neighbours, encounters, None)
        .unwrap()
}

fn entry(iid: &str, level: Level, actors: Vec<ActorSource>) -> LevelEntry {
    LevelEntry { iid: String::from(iid), level, actors }
}

fn ducille() -> ActorSource {
    ActorSource {
        identifier: String::from("Ducille"),
        grid_x: 6,
        grid_y: 4,
        sprite_path: String::from("ducille.png"),
        chest_type: None,
    }
}

/// The town with the plain to its east, and the other levels that the story
/// has scenes for far away.
fn world() -> Vec<LevelEntry> {
    let east = NeighbourLevel::new("e", "plain-iid").unwrap();
    let west = NeighbourLevel::new("w", "town-iid").unwrap();
    let mut levels = vec![
        entry("town-iid", level("Start", 0, vec![east], None), vec![ducille()]),
        entry("plain-iid", level("Level_10", 160, vec![west], None), Vec::new()),
    ];
    for (i, name) in ["Earth_4", "Level_17", "Water_4", "Fire_4"].into_iter().enumerate() {
        levels.push(entry(name, level(name, 1000 * (i as i32 + 1), Vec::new(), None), Vec::new()));
    }
    levels
}

fn game() -> Game {
    match Game::new(resources(), LevelSet::new(world()).unwrap(), 7, SavedOptions::new()) {
        Ok(game) => game,
        Err(e) => panic!("the world is sound: {e:?}"),
    }
}

struct Clock {
    now: u64,
}

impl Clock {
    /// Runs the frame a sixtieth of a second after the last, in which the
    /// game makes one tick.
    fn tick(&mut self, game: &mut Game) -> Option<Result<(), ScriptError>> {
        let report = game.update(self.now);
        self.now += FRAME_TIME;
        assert_eq!(report.polls, 1);
        report.output
    }

    fn tick_with(&mut self, game: &mut Game, key: u16) -> Option<Result<(), ScriptError>> {
        game.key_down_event(key);
        game.key_up_event(key);
        self.tick(game)
    }
}

fn player(game: &Game) -> (i32, i32, i32, i32) {
    let p = &game.context().mctx.actors[0];
    (p.grid_x, p.grid_y, p.offset_x, p.offset_y)
}

#[test]
fn new_game_starts_in_the_town() {
    let mut game = game();
    assert_eq!(game.script_state(), ScriptState::Init);
    assert_eq!(game.context().modes.len(), 0);
    assert_eq!(game.context().mctx.level.identifier, "Start");
    assert_eq!(game.context().mctx.actors.len(), 2);
    assert_eq!(player(&game), (6, 3, 0, 0));
    assert_eq!(game.context().mctx.actors[0].face_dir, Direction::South);
    assert!((20..=50).contains(&game.context().mctx.encounter_steps));
    assert_eq!(game.fade_color(), [0, 0, 0, 0]);
    assert!(!game.is_finished());
    let mut out = Vec::new();
    game.draw(&mut out);
    assert!(out.is_empty());
    let mut clock = Clock { now: 123_456 };
    assert!(clock.tick(&mut game).is_none());
    assert_eq!(game.script_state(), ScriptState::Roaming);
    assert_eq!(game.context().modes.top(), Some(ModeKind::WalkAround));
    game.draw(&mut out);
    assert!(matches!(out[0], DrawCommand::Level { camera_x: 80, camera_y: 64 }));
    assert_eq!(out.len(), 3);
    assert!(game.take_options_to_save().is_none());
}

#[test]
fn same_seed_gives_the_same_game() {
    let (a, b) = (game(), game());
    assert_eq!(a.context().mctx.encounter_steps, b.context().mctx.encounter_steps);
    assert_eq!(a.context().mctx.rng.state(), b.context().mctx.rng.state());
}

#[test]
fn game_ticks_once_for_every_sixtieth_of_a_second() {
    let mut game = game();
    // The first frame makes one tick, whatever the clock says.
    assert_eq!(game.update(1_000_000_000).polls, 1);
    assert_eq!(game.update(1_000_000_000).polls, 0);
    assert_eq!(game.update(1_000_000_000 + FRAME_TIME - 1).polls, 0);
    assert_eq!(game.update(1_000_000_000 + FRAME_TIME).polls, 1);
    assert_eq!(game.update(1_000_000_000 + 3 * FRAME_TIME + 5).polls, 2);
    // The five units left over count for the next frame.
    assert_eq!(game.update(1_000_000_000 + 4 * FRAME_TIME).polls, 1);
    // A long pause is worth four ticks, and a clock that runs backwards none.
    assert_eq!(game.update(9_000_000_000).polls, 4);
    assert_eq!(game.update(8_000_000_000).polls, 0);
    assert_eq!(game.update(8_000_000_000 + 2 * FRAME_TIME).polls, 2);
}

#[test]
fn ducille_teaches_and_gives() {
    let mut game = game();
    let mut clock = Clock { now: 0 };
    assert!(clock.tick(&mut game).is_none());
    assert!(clock.tick_with(&mut game, KEY_Z).is_none());
    assert_eq!(game.script_state(), ScriptState::Texts { next: AfterTexts::Roam });
    assert_eq!(game.context().modes.len(), 2);
    assert_eq!(game.context().modes.top(), Some(ModeKind::TextBox));
    // What she gives is the player's before the first word is read.
    assert!(game.context().mctx.progress.magic[0].known);
    let mut ticks = 0;
    while game.script_state() != ScriptState::Roaming {
        assert!(clock.tick_with(&mut game, KEY_Z).is_none());
        ticks += 1;
        assert!(ticks < 10_000);
    }
    assert_eq!(game.context().modes.len(), 1);
    let progress = &game.context().mctx.progress;
    assert_eq!(progress.items[0].item, Item::Salve);
    assert_eq!(
        progress.items.iter().map(|slot| slot.amount).collect::<Vec<_>>(),
        vec![1, 0, 1, 0]
    );
    let dismissed = game
        .take_audio_commands()
        .into_iter()
        .filter(|c| matches!(c, AudioCommand::PlaySfx { sfx: Sfx::Cursor, .. }))
        .count();
    assert_eq!(dismissed, 7);
    assert_eq!(player(&game), (6, 3, 0, 0));
    // She has nothing more to give, but still a word of advice.
    assert!(clock.tick(&mut game).is_none());
    assert!(clock.tick_with(&mut game, KEY_Z).is_none());
    let mut ticks = 0;
    while game.script_state() != ScriptState::Roaming {
        assert!(clock.tick_with(&mut game, KEY_Z).is_none());
        ticks += 1;
        assert!(ticks < 10_000);
    }
    let dismissed = game
        .take_audio_commands()
        .into_iter()
        .filter(|c| matches!(c, AudioCommand::PlaySfx { sfx: Sfx::Cursor, .. }))
        .count();
    assert_eq!(dismissed, 1);
    assert_eq!(
        game.context().mctx.progress.items.iter().map(|slot| slot.amount).collect::<Vec<_>>(),
        vec![1, 0, 1, 0]
    );
}

#[test]
fn main_menu_opens_over_the_level_and_closes() {
    let mut game = game();
    let mut clock = Clock { now: 0 };
    assert!(clock.tick(&mut game).is_none());
    assert!(clock.tick_with(&mut game, KEY_X).is_none());
    assert_eq!(game.script_state(), ScriptState::InMainMenu);
    assert_eq!(game.context().modes.top(), Some(ModeKind::MainMenu));
    assert_eq!(game.context().modes.len(), 2);
    let mut out = Vec::new();
    game.draw(&mut out);
    assert!(matches!(out[0], DrawCommand::Level { .. }));
    assert!(out.len() > 3);
    assert!(clock.tick(&mut game).is_none());
    assert!(clock.tick_with(&mut game, KEY_X).is_none());
    assert_eq!(game.script_state(), ScriptState::Roaming);
    assert_eq!(game.context().modes.len(), 1);
}

#[test]
fn walking_east_leads_to_the_plain() {
    let mut game = game();
    let mut clock = Clock { now: 0 };
    assert!(clock.tick(&mut game).is_none());
    game.key_down_event(KEY_RIGHT);
    let mut ticks = 0;
    while !matches!(game.script_state(), ScriptState::WalkingOut { .. }) {
        assert!(clock.tick(&mut game).is_none());
        assert_eq!(game.context().mctx.level.identifier, "Start");
        ticks += 1;
        assert!(ticks < 1000);
    }
    // Three tiles to the edge of the town: sixteen ticks on the way and one
    // on the tile for each, and the tick in which the edge is touched.
    assert_eq!(ticks, 3 * 17 + 1);
    assert_eq!(game.script_state(), ScriptState::WalkingOut { dir: Direction::East });
    assert_eq!(player(&game), (10, 3, -15, 0));
    assert_eq!(game.fade_color()[3], 1000 / 16);
    game.key_up_event(KEY_RIGHT);
    for left in (0..15).rev() {
        assert!(clock.tick(&mut game).is_none());
        assert_eq!(game.script_state(), ScriptState::WalkingOut { dir: Direction::East });
        assert_eq!(player(&game), (10, 3, -left, 0));
        assert_eq!(game.fade_color()[3], (16 - left) * 1000 / 16);
    }
    assert_eq!(game.context().mctx.level.identifier, "Start");
    // The tick after the way out is the first tick of the way in.
    assert!(clock.tick(&mut game).is_none());
    assert_eq!(game.script_state(), ScriptState::WalkingIn { dir: Direction::East });
    assert_eq!(game.context().mctx.level.identifier, "Level_10");
    assert_eq!(game.context().mctx.actors.len(), 1);
    assert_eq!(player(&game), (0, 3, -15, 0));
    assert_eq!(game.fade_color()[3], 15 * 1000 / 16);
    for left in (0..15).rev() {
        assert!(clock.tick(&mut game).is_none());
        assert_eq!(game.script_state(), ScriptState::WalkingIn { dir: Direction::East });
        assert_eq!(player(&game), (0, 3, -left, 0));
        assert_eq!(game.fade_color()[3], left * 1000 / 16);
    }
    assert!(clock.tick(&mut game).is_none());
    assert_eq!(game.script_state(), ScriptState::Roaming);
    assert_eq!(player(&game), (0, 3, 0, 0));
    assert_eq!(game.fade_color()[3], 0);
    assert_eq!(game.context().modes.len(), 1);
}

#[test]
fn the_edge_of_the_world_stops_the_player() {
    let mut game = game();
    let mut clock = Clock { now: 0 };
    assert!(clock.tick(&mut game).is_none());
    game.key_down_event(KEY_UP);
    for _ in 0..200 {
        assert!(clock.tick(&mut game).is_none());
        assert_eq!(game.context().mctx.level.identifier, "Start");
    }
    assert_eq!(game.script_state(), ScriptState::Roaming);
    assert_eq!(player(&game), (6, 0, 0, 0));
}

#[test]
fn quitting_from_the_debug_menu_ends_the_game() {
    let mut game = game();
    let mut clock = Clock { now: 0 };
    assert!(clock.tick(&mut game).is_none());
    assert!(clock.tick_with(&mut game, KEY_D).is_none());
    assert_eq!(game.script_state(), ScriptState::InDebugMenu);
    assert!(clock.tick(&mut game).is_none());
    assert!(clock.tick_with(&mut game, KEY_UP).is_none());
    assert_eq!(clock.tick_with(&mut game, KEY_Z), Some(Ok(())));
    assert!(game.is_finished());
    assert_eq!(game.script_state(), ScriptState::Finished);
    // The menu is gone, and free movement is all that is left.
    assert_eq!(game.context().modes.len(), 1);
    assert_eq!(game.context().modes.top(), Some(ModeKind::WalkAround));
    // Nothing runs any more.
    let report = game.update(clock.now + 10 * FRAME_TIME);
    assert_eq!(report.polls, 0);
    assert!(report.output.is_none());
}

#[test]
fn a_warp_to_a_level_that_is_missing_ends_the_game_with_an_error() {
    let mut game = game();
    let mut clock = Clock { now: 0 };
    assert!(clock.tick(&mut game).is_none());
    assert!(clock.tick_with(&mut game, KEY_D).is_none());
    assert!(clock.tick(&mut game).is_none());
    // The entry before the last two opens the list of places.
    assert!(clock.tick_with(&mut game, KEY_UP).is_none());
    assert!(clock.tick_with(&mut game, KEY_UP).is_none());
    assert!(clock.tick_with(&mut game, KEY_Z).is_none());
    assert!(clock.tick_with(&mut game, KEY_UP).is_none());
    assert_eq!(
        clock.tick_with(&mut game, KEY_Z),
        Some(Err(ScriptError::Level(LevelError::UnknownLevel)))
    );
    assert!(game.is_finished());
}

#[test]
fn a_world_without_the_levels_of_the_story_ends_at_once() {
    let mut levels = world();
    levels.pop();
    let mut game =
        Game::new(resources(), LevelSet::new(levels).unwrap(), 7, SavedOptions::new()).ok().unwrap();
    let report = game.update(0);
    assert_eq!(report.polls, 1);
    assert_eq!(report.output, Some(Err(ScriptError::Level(LevelError::UnknownLevel))));
    assert!(game.is_finished());
}

fn setup_error(res: Resources, levels: Vec<LevelEntry>) -> SetupError {
    match Game::new(res, LevelSet::new(levels).unwrap(), 7, SavedOptions::new()) {
        Ok(_) => panic!("the game cannot be set up"),
        Err(e) => e,
    }
}

#[test]
fn a_game_needs_its_town_and_its_player() {
    let mut levels = world();
    levels.remove(0);
    assert_eq!(setup_error(resources(), levels), SetupError::Level(LevelError::UnknownLevel));

    let mut res = resources();
    res.sprite_sheets.remove(0);
    assert_eq!(setup_error(res, world()), SetupError::MissingPlayerSprite);

    let mut res = resources();
    res.sprite_sheets.remove(1);
    assert_eq!(
        setup_error(res, world()),
        SetupError::Level(LevelError::BadActor(ActorError::MissingSprite))
    );

    let mut levels = world();
    levels[0].actors[0].identifier = String::from("Nobody");
    assert_eq!(
        setup_error(resources(), levels),
        SetupError::Level(LevelError::BadActor(ActorError::UnknownActorType))
    );

    let mut res = resources();
    res.window_textures.px_wid_left = 8;
    assert_eq!(setup_error(res, world()), SetupError::BadWindowTextures);
}

#[test]
fn options_set_the_volumes() {
    let game = match Game::new(
        resources(),
        LevelSet::new(world()).unwrap(),
        7,
        SavedOptions { music_volume: 30, sound_volume: 70 },
    ) {
        Ok(game) => game,
        Err(_) => panic!("the world is sound"),
    };
    assert_eq!(game.context().mctx.audio.get_music_volume_custom(), 30);
    assert_eq!(game.context().mctx.audio.get_sound_volume_custom(), 70);
}

#[test]
fn a_battle_needs_a_picture_of_the_enemy() {
    let mut game = game();
    let mut clock = Clock { now: 0 };
    assert!(clock.tick(&mut game).is_none());
    assert!(clock.tick_with(&mut game, KEY_D).is_none());
    assert!(clock.tick(&mut game).is_none());
    // The third entry opens the list of battles, whose last entry is a
    // fight against the spirit of fire, of whom the world has no picture.
    assert!(clock.tick_with(&mut game, KEY_DOWN).is_none());
    assert!(clock.tick_with(&mut game, KEY_DOWN).is_none());
    assert!(clock.tick_with(&mut game, KEY_Z).is_none());
    assert_eq!(game.script_state(), ScriptState::InDebugMenu);
    assert!(clock.tick_with(&mut game, KEY_UP).is_none());
    assert_eq!(clock.tick_with(&mut game, KEY_Z), Some(Err(ScriptError::MissingSprite)));
    assert!(game.is_finished());
}

#[test]
fn a_battle_from_the_debug_menu_begins_over_the_level() {
    let mut res = resources();
    res.sprite_sheets.push(sheet("fire.png", &["idle"]));
    let mut game =
        Game::new(res, LevelSet::new(world()).unwrap(), 7, SavedOptions::new()).ok().unwrap();
    let mut clock = Clock { now: 0 };
    assert!(clock.tick(&mut game).is_none());
    assert!(clock.tick_with(&mut game, KEY_D).is_none());
    assert!(clock.tick(&mut game).is_none());
    assert!(clock.tick_with(&mut game, KEY_DOWN).is_none());
    assert!(clock.tick_with(&mut game, KEY_DOWN).is_none());
    assert!(clock.tick_with(&mut game, KEY_Z).is_none());
    assert!(clock.tick_with(&mut game, KEY_UP).is_none());
    assert!(clock.tick_with(&mut game, KEY_Z).is_none());
    assert!(matches!(game.script_state(), ScriptState::InBattle { .. }));
    assert_eq!(game.context().modes.len(), 2);
    assert_eq!(game.context().modes.top(), Some(ModeKind::Battle));
    // The player is not to be seen during the battle.
    assert!(!game.context().mctx.actors[0].visible);
}

#[test]
fn talking_to_a_stranger_ends_the_game_with_an_error() {
    let mut levels = world();
    levels[0].actors[0].identifier = String::from("Water");
    let mut game =
        Game::new(resources(), LevelSet::new(levels).unwrap(), 7, SavedOptions::new()).ok().unwrap();
    let mut clock = Clock { now: 0 };
    assert!(clock.tick(&mut game).is_none());
    assert_eq!(clock.tick_with(&mut game, KEY_Z), Some(Err(ScriptError::MissingTalkScript)));
    assert!(game.is_finished());
}

#[test]
fn unsound_levels_are_turned_down() {
    let mut levels = world();
    levels[1].level.px_wid = -16;
    assert!(LevelSet::new(levels).is_none());

    let mut set = LevelSet::new(world()).unwrap();
    set.levels[1].level.px_hei = -16;
    assert!(!set.check());
    match Game::new(resources(), set, 7, SavedOptions::new()) {
        Err(e) => assert_eq!(e, SetupError::BadLevels),
        Ok(_) => panic!("the levels are unsound"),
    }
}


#[test]
fn leaving_the_debug_menu_leads_back_to_the_level() {
    let mut game = game();
    let mut clock = Clock { now: 0 };
    assert!(clock.tick(&mut game).is_none());
    assert!(clock.tick_with(&mut game, KEY_D).is_none());
    assert_eq!(game.script_state(), ScriptState::InDebugMenu);
    assert_eq!(game.context().modes.len(), 2);
    assert!(clock.tick(&mut game).is_none());
    assert!(clock.tick_with(&mut game, KEY_X).is_none());
    assert_eq!(game.script_state(), ScriptState::Roaming);
    assert_eq!(game.context().modes.len(), 1);
    assert_eq!(game.context().modes.top(), Some(ModeKind::WalkAround));
    assert!(!game.is_finished());
}

#[test]
fn a_frame_without_a_tick_leaves_keys_and_music_alone() {
    let mut game = game();
    let mut clock = Clock { now: 0 };
    assert!(clock.tick(&mut game).is_none());
    let _ = game.take_audio_commands();
    game.key_down_event(KEY_RIGHT);
    let steps = game.context().mctx.encounter_steps;
    let report = game.update(clock.now - FRAME_TIME + 5);
    assert_eq!(report.polls, 0);
    assert!(game.context().mctx.input.is_key_pressed(corics_quest::input::GameKey::Right));
    assert!(game.context().mctx.input.is_key_down(corics_quest::input::GameKey::Right));
    assert_eq!(game.context().mctx.encounter_steps, steps);
    assert_eq!(player(&game), (6, 3, 0, 0));
    assert!(game.take_audio_commands().is_empty());
}

#[test]
fn keys_change_nothing_but_the_keys() {
    let mut game = game();
    let mut clock = Clock { now: 0 };
    assert!(clock.tick(&mut game).is_none());
    let steps = game.context().mctx.encounter_steps;
    let rng = game.context().mctx.rng.state();
    game.key_down_event(KEY_RIGHT);
    game.key_down_event(KEY_Z);
    assert!(game.context().mctx.input.is_key_down(corics_quest::input::GameKey::Right));
    assert!(game.context().mctx.input.is_key_down(corics_quest::input::GameKey::Confirm));
    game.key_up_event(KEY_Z);
    assert!(game.context().mctx.input.is_key_down(corics_quest::input::GameKey::Right));
    assert!(!game.context().mctx.input.is_key_down(corics_quest::input::GameKey::Confirm));
    assert_eq!(game.context().mctx.encounter_steps, steps);
    assert_eq!(game.context().mctx.rng.state(), rng);
    assert_eq!(game.script_state(), ScriptState::Roaming);
    assert_eq!(player(&game), (6, 3, 0, 0));
}
