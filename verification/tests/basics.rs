use corics_quest::audio::{Audio, AudioCommand, Music, Sfx, FULL_VOLUME};
use corics_quest::direction::Direction;
use corics_quest::fade::{Fade, CHANNEL_MAX};
use corics_quest::input::{GameKey, Input, KEY_1, KEY_Q, KEY_UP, KEY_X, KEY_Z};
use corics_quest::meter::Meter;
use corics_quest::numeric::{add_clamped, mul_clamped, sub_clamped};
use corics_quest::random::{splitmix64_next, Rng};
use corics_quest::saved_options::SavedOptions;
use corics_quest::progress::save_file;
use corics_quest::strings::{chars_of, decimal_of, signed_decimal_of, str_eq};

#[test]
fn directions_step_one_tile() {
    assert_eq!((Direction::North.dx(), Direction::North.dy()), (0, -1));
    assert_eq!((Direction::East.dx(), Direction::East.dy()), (1, 0));
    assert_eq!((Direction::South.dx(), Direction::South.dy()), (0, 1));
    assert_eq!((Direction::West.dx(), Direction::West.dy()), (-1, 0));
}

#[test]
fn reverse_points_the_other_way() {
    for d in [Direction::North, Direction::East, Direction::South, Direction::West] {
        assert_eq!(d.reverse().reverse(), d);
        assert_eq!(d.reverse().dx(), -d.dx());
        assert_eq!(d.reverse().dy(), -d.dy());
    }
    assert_eq!(Direction::North.reverse(), Direction::South);
    assert_eq!(Direction::East.reverse(), Direction::West);
}

#[test]
fn keys_are_bound_to_game_keys() {
    assert_eq!(GameKey::try_from(KEY_Z), Ok(GameKey::Confirm));
    assert_eq!(GameKey::try_from(KEY_X), Ok(GameKey::Cancel));
    assert_eq!(GameKey::try_from(KEY_UP), Ok(GameKey::Up));
    assert_eq!(GameKey::try_from(KEY_Q), Ok(GameKey::DebugQuit));
    assert_eq!(GameKey::try_from(KEY_1), Ok(GameKey::DebugEquip1));
    assert_eq!(GameKey::try_from(0x0020), Err(()));
    assert_eq!(GameKey::try_from(0x0041), Err(()));
}

#[test]
fn key_down_is_held_and_pressed_until_reset() {
    let mut input = Input::new();
    assert!(!input.is_key_down(GameKey::Confirm));
    assert!(!input.is_key_pressed(GameKey::Confirm));
    input.handle_key_down_event(KEY_Z);
    assert!(input.is_key_down(GameKey::Confirm));
    assert!(input.is_key_pressed(GameKey::Confirm));
    assert!(!input.is_key_down(GameKey::Cancel));
    input.reset_keys_pressed();
    assert!(input.is_key_down(GameKey::Confirm));
    assert!(!input.is_key_pressed(GameKey::Confirm));
    input.handle_key_up_event(KEY_Z);
    assert!(!input.is_key_down(GameKey::Confirm));
}

#[test]
fn key_up_leaves_the_press_to_be_seen() {
    let mut input = Input::new();
    input.handle_key_down_event(KEY_X);
    input.handle_key_up_event(KEY_X);
    assert!(!input.is_key_down(GameKey::Cancel));
    assert!(input.is_key_pressed(GameKey::Cancel));
}

#[test]
fn unbound_keys_change_nothing() {
    let mut input = Input::new();
    input.handle_key_down_event(0x0020);
    for key in [GameKey::Confirm, GameKey::Cancel, GameKey::Up, GameKey::DebugQuit] {
        assert!(!input.is_key_down(key));
        assert!(!input.is_key_pressed(key));
    }
}

#[test]
fn splitmix64_gives_its_known_outputs() {
    let mut x = 0u64;
    assert_eq!(splitmix64_next(&mut x), 0xe220a8397b1dcdaf);
    assert_eq!(x, 0x9e3779b97f4a7c15);
    assert_eq!(splitmix64_next(&mut x), 0x6e789e6aa1b965f4);
    assert_eq!(splitmix64_next(&mut x), 0x06c45d188009454f);
}

#[test]
fn generator_state_comes_from_the_seed() {
    let rng = Rng::new(0);
    assert_eq!(rng.state(), (0x7b1dcdaf, 0xe220a839, 0xa1b965f4, 0x6e789e6a));
}

#[test]
fn xoshiro_steps_as_defined() {
    let mut rng = Rng::from_state(1, 2, 3, 4);
    // (1 + 4) rotated left by 7 is 640, plus 1.
    assert_eq!(rng.xoshiro128pp_next(), 641);
    // t = 2 << 9; s2 = 3 ^ 1 = 2; s3 = 4 ^ 2 = 6; s1 = 2 ^ 2 = 0; s0 = 1 ^ 6 = 7;
    // s2 = 2 ^ 1024 = 1026; s3 = 6 rotated left by 11 = 12288.
    assert_eq!(rng.state(), (7, 0, 1026, 12288));
}

#[test]
fn random_numbers_lie_in_their_range() {
    let mut rng = Rng::new(42);
    for s in [1u32, 2, 3, 7, 31, 100, 1000, u32::MAX] {
        for _ in 0..200 {
            assert!(rng.random(s) < s);
        }
    }
    assert_eq!(rng.random(0), 0);
    assert_eq!(rng.random(1), 0);
}

#[test]
fn equal_seeds_give_equal_numbers() {
    let mut a = Rng::new(7);
    let mut b = Rng::new(7);
    for _ in 0..50 {
        assert_eq!(a.random(100), b.random(100));
    }
}

#[test]
fn clamped_arithmetic_stops_at_the_ends() {
    assert_eq!(add_clamped(i32::MAX, 1), i32::MAX);
    assert_eq!(add_clamped(-5, 3), -2);
    assert_eq!(sub_clamped(i32::MIN, 1), i32::MIN);
    assert_eq!(sub_clamped(3, 5), -2);
    assert_eq!(mul_clamped(1 << 20, 1 << 20), i32::MAX);
    assert_eq!(mul_clamped(-7, 6), -42);
}

#[test]
fn numbers_are_written_in_decimal() {
    assert_eq!(decimal_of(0).iter().collect::<String>(), "0");
    assert_eq!(decimal_of(907).iter().collect::<String>(), "907");
    assert_eq!(decimal_of(-15).iter().collect::<String>(), "-15");
    assert_eq!(decimal_of(i64::MIN).iter().collect::<String>(), "-9223372036854775808");
    assert_eq!(signed_decimal_of(25).iter().collect::<String>(), "+25");
    assert_eq!(signed_decimal_of(-1).iter().collect::<String>(), "-1");
}

#[test]
fn strings_and_characters_convert_both_ways() {
    let chars = chars_of("a\u{25ba}b");
    assert_eq!(chars, vec!['a', '\u{25ba}', 'b']);
    assert_eq!(save_file("a\u{25ba}b"), "// cqsave 1\na\u{25ba}b");
}

#[test]
fn names_are_compared_letter_for_letter() {
    assert!(str_eq("Start", "Start"));
    assert!(!str_eq("Start", "start"));
    assert!(!str_eq("Start", "Star"));
    assert!(str_eq("", ""));
    assert_eq!(Music::from("Town"), Some(Music::Town));
    assert_eq!(Music::from("town"), None);
    assert_eq!(Music::from("Town "), None);
    assert_eq!(Music::from(""), None);
}

#[test]
fn saved_options_default_to_full_volume() {
    let opts = SavedOptions::new();
    assert_eq!((opts.music_volume, opts.sound_volume), (100, 100));
    assert_eq!(SavedOptions::load(None), opts);
    let saved = SavedOptions { music_volume: 30, sound_volume: 0 };
    assert_eq!(SavedOptions::load(Some(saved)), saved);
}

#[test]
fn music_is_named_in_level_data() {
    assert_eq!(Music::from("Battle"), Some(Music::Battle));
    assert_eq!(Music::from("Town"), Some(Music::Town));
    assert_eq!(Music::from("town"), None);
    assert_eq!(Music::Boss.sound_file(), "boss.ogg");
    assert_eq!(Music::Boss.base_volume(), 544);
    assert_eq!(Music::Town.base_volume(), 1000);
    assert_eq!(Sfx::Cursor.base_volume(), 800);
    assert_eq!(Sfx::Attack.base_volume(), 1000);
}

#[test]
fn music_starts_and_stops_by_command() {
    let mut audio = Audio::new(100, 100);
    audio.play_music(Some(Music::Town));
    assert_eq!(
        audio.take_commands(),
        vec![AudioCommand::PlayMusic { music: Music::Town, volume: FULL_VOLUME }]
    );
    audio.play_music(Some(Music::Town));
    assert!(audio.take_commands().is_empty());
    audio.play_music(Some(Music::Boss));
    assert_eq!(
        audio.take_commands(),
        vec![
            AudioCommand::StopMusic,
            AudioCommand::PlayMusic { music: Music::Boss, volume: 5_440_000 },
        ]
    );
    audio.play_music(None);
    assert_eq!(audio.take_commands(), vec![AudioCommand::StopMusic]);
}

#[test]
fn volumes_multiply() {
    let mut audio = Audio::new(50, 20);
    assert_eq!(audio.calc_music_volume(Music::Town), 1000 * 50 * 100);
    assert_eq!(audio.calc_music_volume(Music::Boss), 544 * 50 * 100);
    assert_eq!(audio.calc_sfx_volume(Sfx::Heal), 500 * 20 * 100);
    audio.set_music_volume_custom(200);
    assert_eq!(audio.get_music_volume_custom(), 100);
    audio.set_sound_volume_custom(7);
    assert_eq!(audio.get_sound_volume_custom(), 7);
}

#[test]
fn scripted_volume_moves_a_step_a_tick() {
    let mut audio = Audio::new(100, 100);
    audio.play_music(Some(Music::Town));
    audio.set_music_volume_scripted(98);
    audio.take_commands();
    audio.adjust_music_volume_scripted();
    assert_eq!(audio.take_commands(), vec![AudioCommand::SetMusicVolume { volume: 9_900_000 }]);
    audio.adjust_music_volume_scripted();
    assert_eq!(audio.take_commands(), vec![AudioCommand::SetMusicVolume { volume: 9_800_000 }]);
    audio.adjust_music_volume_scripted();
    assert!(audio.take_commands().is_empty());
}

#[test]
fn menu_sounds_cut_each_other_off() {
    let mut audio = Audio::new(100, 100);
    audio.play_sfx(Sfx::Cursor);
    assert_eq!(
        audio.take_commands(),
        vec![
            AudioCommand::StopSfx { sfx: Sfx::Cancel },
            AudioCommand::StopSfx { sfx: Sfx::Confirm },
            AudioCommand::StopSfx { sfx: Sfx::Cursor },
            AudioCommand::PlaySfx { sfx: Sfx::Cursor, volume: 8_000_000 },
        ]
    );
    audio.play_sfx(Sfx::Hurt);
    assert_eq!(
        audio.take_commands(),
        vec![
            AudioCommand::StopSfx { sfx: Sfx::Hurt },
            AudioCommand::PlaySfx { sfx: Sfx::Hurt, volume: 5_000_000 },
        ]
    );
}

#[test]
fn fade_reaches_its_target_after_its_frames() {
    let mut fade = Fade::new();
    assert_eq!(fade.get(), [0, 0, 0, 0]);
    fade.begin(4, [0, 0, 0, 1000]);
    assert!(fade.to_color().is_pending());
    assert_eq!(fade.get(), [0, 0, 0, 250]);
    assert!(fade.to_color().is_pending());
    assert_eq!(fade.get(), [0, 0, 0, 500]);
    assert!(fade.to_color().is_pending());
    assert_eq!(fade.get(), [0, 0, 0, 750]);
    assert!(fade.to_color().is_ready());
    assert_eq!(fade.get(), [0, 0, 0, 1000]);
}

#[test]
fn fade_of_one_frame_is_done_at_once() {
    let mut fade = Fade::new();
    fade.begin(1, [10, 20, 30, 40]);
    assert!(fade.to_color().is_ready());
    assert_eq!(fade.get(), [10, 20, 30, 40]);
    fade.begin(0, [1, 2, 3, 4]);
    assert!(fade.to_color().is_ready());
    assert_eq!(fade.get(), [1, 2, 3, 4]);
}

#[test]
fn fade_in_starts_opaque_and_ends_clear() {
    let mut fade = Fade::new();
    fade.set([5, 6, 7, 300]);
    fade.in_from_black(3);
    assert_eq!(fade.get(), [5, 6, 7, CHANNEL_MAX]);
    assert!(fade.to_color().is_pending());
    assert_eq!(fade.get(), [5, 6, 7, 666]);
    assert!(fade.to_color().is_pending());
    assert_eq!(fade.get(), [5, 6, 7, 333]);
    assert!(fade.to_color().is_ready());
    assert_eq!(fade.get(), [5, 6, 7, 0]);
    fade.out_to_black(2);
    assert_eq!(fade.get(), [5, 6, 7, 0]);
    assert!(fade.to_color().is_pending());
    assert_eq!(fade.get(), [5, 6, 7, 500]);
    assert!(fade.to_color().is_ready());
    assert_eq!(fade.get(), [5, 6, 7, CHANNEL_MAX]);
}

#[test]
fn fade_step_shows_the_last_frame_for_a_tick() {
    let mut fade = Fade::new();
    fade.begin(2, [0, 0, 0, 1000]);
    assert!(fade.fade_step().is_pending());
    assert_eq!(fade.get(), [0, 0, 0, 500]);
    assert!(fade.fade_step().is_pending());
    assert_eq!(fade.get(), [0, 0, 0, 1000]);
    assert!(fade.fade_step().is_ready());
}

#[test]
fn meter_keeps_its_value_in_range() {
    let mut meter = Meter::new(0, 0, 32, [0, 192, 0], 50);
    assert_eq!(meter.get(), (50, 50));
    meter.set_value(20);
    assert_eq!(meter.get(), (20, 50));
    meter.set_value(-4);
    assert_eq!(meter.get(), (0, 50));
    meter.set_value(51);
    assert_eq!(meter.get(), (50, 50));
    meter.set_value_and_max(3, 0);
    assert_eq!(meter.get(), (1, 1));
    let empty = Meter::new(0, 0, 32, [0, 0, 0], -7);
    assert_eq!(empty.get(), (0, 1));
}
