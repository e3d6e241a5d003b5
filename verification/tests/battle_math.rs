use corics_quest::enemy::{EncounterGroup, Enemy};
use corics_quest::modes::battle::{calc_base_damage, calc_damage, calc_magic_damage, follow_up_bonus};
use corics_quest::progress::Magic;
use corics_quest::random::Rng;

#[test]
fn weak_attacks_deal_one_point() {
    // The square of the attack is below the defense.
    assert_eq!(calc_damage(2, 5, 2, 0), 1);
    assert_eq!(calc_damage(2, 5, 2, 99), 1);
    assert_eq!(calc_damage(0, 1, 2, 50), 1);
}

#[test]
fn middling_attacks_deal_the_square_over_the_defense() {
    // 6 * 6 / 9 = 4.
    assert_eq!(calc_damage(6, 9, 2, 0), 4);
    assert_eq!(calc_damage(6, 9, 2, 99), 4);
    // 5 * 5 / 8 = 3.125: one more with a roll below 12.5.
    assert_eq!(calc_damage(5, 8, 2, 0), 4);
    assert_eq!(calc_damage(5, 8, 2, 12), 4);
    assert_eq!(calc_damage(5, 8, 2, 13), 3);
    assert_eq!(calc_damage(5, 8, 2, 99), 3);
}

#[test]
fn strong_attacks_deal_twice_the_attack_less_the_defense() {
    assert_eq!(calc_damage(6, 1, 2, 0), 11);
    assert_eq!(calc_damage(6, 1, 2, 99), 11);
    assert_eq!(calc_damage(4, 3, 2, 50), 5);
    assert_eq!(calc_damage(10, 10, 2, 50), 10);
}

#[test]
fn follow_ups_multiply_the_damage() {
    // 11 times 1.5 is 16.5: 17 with a roll below 50.
    assert_eq!(calc_damage(6, 1, 3, 49), 17);
    assert_eq!(calc_damage(6, 1, 3, 50), 16);
    assert_eq!(calc_damage(6, 1, 4, 0), 22);
    assert_eq!(calc_damage(6, 1, 6, 0), 33);
}

#[test]
fn damage_beyond_the_range_stops_at_its_end() {
    assert_eq!(calc_damage(i32::MAX, i32::MIN, 6, 0), i32::MAX);
    assert_eq!(calc_damage(-3, 0, 2, 0), i32::MAX);
    // -3 * -3 / -2 = -4.5, rounded towards zero.
    assert_eq!(calc_damage(-3, -2, 2, 0), -4);
}

#[test]
fn bonus_grows_with_weakness_and_freshness() {
    assert_eq!(follow_up_bonus(None, None), 2);
    assert_eq!(follow_up_bonus(None, Some(Magic::FireEdge)), 2);
    assert_eq!(follow_up_bonus(Some((Magic::FireEdge, 0)), None), 3);
    assert_eq!(follow_up_bonus(Some((Magic::FireEdge, 1)), None), 4);
    assert_eq!(follow_up_bonus(Some((Magic::FireEdge, 0)), Some(Magic::FireEdge)), 4);
    assert_eq!(follow_up_bonus(Some((Magic::FireEdge, 1)), Some(Magic::FireEdge)), 6);
    assert_eq!(follow_up_bonus(Some((Magic::FireEdge, 1)), Some(Magic::WaterEdge)), 4);
    assert_eq!(follow_up_bonus(Some((Magic::FireEdge, 9)), None), 6);
}

#[test]
fn damage_draws_one_number() {
    let mut rng = Rng::new(3);
    let mut same = Rng::new(3);
    let roll = same.random(100);
    assert_eq!(calc_base_damage(5, 8, &mut rng), calc_damage(5, 8, 2, roll));
    assert_eq!(rng.state(), same.state());
    let roll = same.random(100);
    let follow_up = Some((Magic::EarthEdge, 1));
    let weakness = Some(Magic::EarthEdge);
    assert_eq!(
        calc_magic_damage(6, 1, follow_up, weakness, &mut rng),
        calc_damage(6, 1, 6, roll)
    );
    assert_eq!(rng.state(), same.state());
}

#[test]
fn enemies_come_from_their_groups() {
    let rat = EncounterGroup::Wilderness1.enemy(0);
    assert_eq!((rat.name, rat.sprite_path, rat.hp, rat.attack, rat.defense, rat.exp),
        ("Rat", "rat.png", 32, 4, 1, 10));
    assert!(rat.weakness.is_none());
    assert_eq!(rat.actions.len(), 1);
    assert_eq!(rat.actions[0].chance, 20);
    assert_eq!(rat.actions[0].msg, "twitches its whiskers.");
    assert!(rat.actions[0].damage_factor.is_none());
    let vampire = EncounterGroup::FireCastle.enemy(3);
    assert_eq!((vampire.name, vampire.hp, vampire.attack, vampire.defense, vampire.exp),
        ("Vampire", 247, 62, 59, 1482));
    assert_eq!(vampire.weakness, Some(Magic::WaterEdge));
    assert_eq!(vampire.actions.len(), 3);
    assert_eq!(vampire.actions[0].damage_factor, Some(17));
    let beast = EncounterGroup::Wilderness1.enemy(2);
    assert_eq!(beast.name, "Horn Beast");
    assert_eq!(beast.actions[0].damage_factor, Some(13));
    assert_eq!(beast.actions[1].msg, "charges at Coric!\nCoric steps aside!");
    let turtle = EncounterGroup::WaterCastle.enemy(2);
    assert_eq!((turtle.name, turtle.defense), ("Turtle", 66));
}

#[test]
fn random_enemy_is_the_one_at_the_number_drawn() {
    for group in [
        EncounterGroup::Wilderness1,
        EncounterGroup::Wilderness2,
        EncounterGroup::Wilderness3,
        EncounterGroup::EarthCastle,
        EncounterGroup::WaterCastle,
        EncounterGroup::FireCastle,
    ] {
        let mut rng = Rng::new(11);
        let mut same = Rng::new(11);
        for _ in 0..20 {
            let enemy = group.random_enemy(&mut rng);
            let expected = group.enemy(same.random(4));
            assert_eq!(enemy.name, expected.name);
            assert_eq!(enemy.hp, expected.hp);
        }
    }
}

#[test]
fn groups_are_named_in_level_data() {
    assert_eq!(EncounterGroup::from("Wilderness2"), Some(EncounterGroup::Wilderness2));
    assert_eq!(EncounterGroup::from("FireCastle"), Some(EncounterGroup::FireCastle));
    assert_eq!(EncounterGroup::from("Castle"), None);
    assert_eq!(EncounterGroup::Wilderness1.index(), 0);
    assert_eq!(EncounterGroup::FireCastle.index(), 5);
}

#[test]
fn spirits_are_weak_to_the_magic_found_before_them() {
    assert_eq!(Enemy::earth_spirit().weakness, Some(Magic::FireEdge));
    assert_eq!(Enemy::water_spirit().weakness, Some(Magic::EarthEdge));
    assert_eq!(Enemy::fire_spirit().weakness, Some(Magic::WaterEdge));
    let copy = Enemy::fire_spirit().clone();
    assert_eq!(copy.name, "Fire");
    assert_eq!(copy.actions.len(), Enemy::fire_spirit().actions.len());
}
