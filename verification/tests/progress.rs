use corics_quest::progress::v1::{ItemSlotV1, ItemV1, MagicV1, ProgressV1};
use corics_quest::progress::{
    player_rank, save_file, split_save, Item, ItemSlot, Magic, MagicSlot, Progress, SaveError,
};

#[test]
fn new_game_starts_with_nothing() {
    let p = Progress::new();
    assert_eq!((p.hp, p.max_hp, p.mp, p.max_mp), (50, 50, 15, 15));
    assert_eq!((p.attack, p.defense, p.level, p.exp, p.base_exp), (6, 3, 1, 0, 0));
    assert!(p.weapon.is_none() && p.armor.is_none());
    let items: Vec<(Item, i32)> = p.items.iter().map(|s| (s.item, s.amount)).collect();
    assert_eq!(
        items,
        vec![(Item::Salve, 0), (Item::XSalve, 0), (Item::Tonic, 0), (Item::XTonic, 0)]
    );
    let magic: Vec<(Magic, bool)> = p.magic.iter().map(|s| (s.magic, s.known)).collect();
    assert_eq!(
        magic,
        vec![
            (Magic::Heal, false),
            (Magic::FireEdge, false),
            (Magic::EarthEdge, false),
            (Magic::WaterEdge, false),
        ]
    );
    assert_eq!(p.steps, vec![0; 7]);
    assert!(!p.earth_defeated && !p.water_defeated && !p.fire_defeated);
}

#[test]
fn experience_for_the_next_level_comes_from_the_table() {
    let mut p = Progress::new();
    assert_eq!(p.next_exp(), Some(40));
    p.level = 2;
    assert_eq!(p.next_exp(), Some(80));
    p.level = 10;
    assert_eq!(p.next_exp(), Some(1160));
    p.level = 29;
    assert_eq!(p.next_exp(), Some(33300));
    p.level = 30;
    assert_eq!(p.next_exp(), None);
    p.level = 1000;
    assert_eq!(p.next_exp(), None);
}

#[test]
fn a_level_raises_the_statistics() {
    let mut p = Progress::new();
    p.gain_level();
    assert_eq!(p.level, 2);
    assert_eq!(p.base_exp, 40);
    assert_eq!((p.hp, p.max_hp, p.mp, p.max_mp), (80, 80, 16, 16));
    assert_eq!((p.attack, p.defense), (8, 5));
    p.gain_level();
    assert_eq!(p.base_exp, 120);
    assert_eq!(p.level, 3);
}

#[test]
fn a_level_beyond_the_table_adds_no_base_experience() {
    let mut p = Progress::new();
    p.level = 30;
    p.base_exp = 77;
    p.gain_level();
    assert_eq!(p.level, 31);
    assert_eq!(p.base_exp, 77);
}

#[test]
fn statistics_stop_at_the_end_of_their_range() {
    let mut p = Progress::new();
    p.max_hp = i32::MAX - 10;
    p.attack = i32::MAX;
    p.gain_level();
    assert_eq!(p.max_hp, i32::MAX);
    assert_eq!(p.attack, i32::MAX);
}

#[test]
fn experience_pays_for_levels() {
    let mut p = Progress::new();
    p.exp = 39;
    assert!(!p.gain_level_from_exp());
    assert_eq!((p.level, p.exp), (1, 39));
    p.exp = 130;
    assert!(p.gain_level_from_exp());
    assert_eq!((p.level, p.exp), (2, 90));
    assert!(p.gain_level_from_exp());
    assert_eq!((p.level, p.exp), (3, 10));
    assert!(!p.gain_level_from_exp());
    p.level = 30;
    p.exp = i32::MAX;
    assert!(!p.gain_level_from_exp());
}

#[test]
fn items_are_filled_up_to_an_amount() {
    let mut p = Progress::new();
    assert_eq!(p.maybe_give_items(Item::Tonic, 2), 2);
    assert_eq!(p.items[2].amount, 2);
    assert_eq!(p.maybe_give_items(Item::Tonic, 3), 1);
    assert_eq!(p.maybe_give_items(Item::Tonic, 3), 0);
    assert_eq!(p.maybe_give_items(Item::Tonic, 1), 0);
    assert_eq!(p.items[2].amount, 3);
    assert_eq!(p.items[0].amount, 0);
    assert_eq!(p.maybe_give_items(Item::XTonic, 1), 1);
    assert_eq!(p.items[3].amount, 1);
}

#[test]
fn better_equipment_is_taken() {
    let mut p = Progress::new();
    assert!(p.maybe_upgrade_weapon("Short Sword", 2));
    assert_eq!(p.attack, 8);
    assert_eq!(p.weapon.as_ref().unwrap().name, "Short Sword");
    assert!(!p.maybe_upgrade_weapon("Twig", 2));
    assert!(!p.maybe_upgrade_weapon("Twig", 1));
    assert_eq!(p.attack, 8);
    assert!(p.maybe_upgrade_weapon("Long Sword", 7));
    assert_eq!(p.attack, 13);
    assert_eq!(p.weapon.as_ref().unwrap().attack, 7);
    assert!(!p.maybe_upgrade_armor("Rags", 0));
    assert!(p.armor.is_none());
    assert!(p.maybe_upgrade_armor("Chain Vest", 7));
    assert_eq!(p.defense, 10);
    assert_eq!(p.armor.as_ref().unwrap().name, "Chain Vest");
}

#[test]
fn ranks_follow_levels() {
    assert_eq!(player_rank(-3), "Fighter");
    assert_eq!(player_rank(7), "Fighter");
    assert_eq!(player_rank(8), "Warrior");
    assert_eq!(player_rank(15), "Warrior");
    assert_eq!(player_rank(16), "Knight");
    assert_eq!(player_rank(23), "Knight");
    assert_eq!(player_rank(24), "Valor Guard");
    assert_eq!(player_rank(29), "Valor Guard");
    assert_eq!(player_rank(30), "Blademaster");
}

#[test]
fn items_and_magic_have_names_and_costs() {
    assert_eq!(Item::Salve.name(), "Salve");
    assert_eq!(Item::XTonic.name(), "XTonic");
    assert_eq!(Item::Salve.description(), "Heals 30% of max HP.");
    assert_eq!(Item::XTonic.description(), "Restores all MP.");
    assert_eq!(Magic::Heal.name(), "Heal");
    assert_eq!(Magic::WaterEdge.description(), "Deals water damage.");
    assert_eq!(Magic::Heal.mp_cost(), 4);
    assert_eq!(Magic::EarthEdge.mp_cost(), 1);
    assert_eq!(Magic::FireEdge.mp_cost(), 1);
}

#[test]
fn menu_entries_are_laid_out_in_columns() {
    let salve = ItemSlot { item: Item::Salve, amount: 3 };
    assert_eq!(salve.battle_menu_entry(), format!("{:9.9}{:2}", "Salve", 3));
    assert_eq!(salve.battle_menu_entry(), "Salve     3");
    assert_eq!(salve.main_menu_entry(), format!("{:16.16} {:2} / 9", "Salve", 3));
    assert_eq!(salve.description(), "Heals 30% of max HP.");
    let many = ItemSlot { item: Item::XSalve, amount: 12 };
    assert_eq!(many.battle_menu_entry(), "XSalve   12");
    let none = ItemSlot { item: Item::Tonic, amount: 0 };
    assert_eq!(none.battle_menu_entry(), "");
    assert_eq!(none.main_menu_entry(), "");
    assert_eq!(none.description(), "");
    let heal = MagicSlot { magic: Magic::Heal, known: true };
    assert_eq!(heal.battle_menu_entry(), format!("{:9.9}{:2}MP", "Heal", 4));
    assert_eq!(heal.main_menu_entry(), format!("{:18.18}{:2} MP", "Heal", 4));
    assert_eq!(heal.description(), "Heals 50% of max HP.");
    let edge = MagicSlot { magic: Magic::EarthEdge, known: true };
    assert_eq!(edge.battle_menu_entry(), "EarthEdge 1MP");
    let unknown = MagicSlot { magic: Magic::FireEdge, known: false };
    assert_eq!(unknown.battle_menu_entry(), "");
    assert_eq!(unknown.main_menu_entry(), "");
    assert_eq!(unknown.description(), "");
}

#[test]
fn save_file_names_its_version() {
    assert_eq!(save_file("{\"hp\":50}"), "// cqsave 1\n{\"hp\":50}");
    assert_eq!(Progress::save("{}"), "// cqsave 1\n{}");
}

#[test]
fn save_file_splits_into_version_and_data() {
    assert_eq!(split_save("// cqsave 1\n{\"hp\":50}"), Ok((1, String::from("{\"hp\":50}"))));
    assert_eq!(split_save("// cqsave 27 \n\t data "), Ok((27, String::from("data "))));
    assert_eq!(split_save("// cqsave 007x"), Ok((7, String::new())));
    assert_eq!(split_save("// cqsave 4294967295\n"), Ok((u32::MAX, String::new())));
    assert_eq!(split_save(&save_file("  x")), Ok((1, String::from("x"))));
}

#[test]
fn broken_save_files_are_told_apart() {
    assert_eq!(split_save(""), Err(SaveError::InvalidSaveData));
    assert_eq!(split_save("// cqsav 1\n"), Err(SaveError::InvalidSaveData));
    assert_eq!(split_save("{\"hp\":50}"), Err(SaveError::InvalidSaveData));
    assert_eq!(split_save("// cqsave "), Err(SaveError::MissingVersionNumber));
    assert_eq!(split_save("// cqsave 12"), Err(SaveError::MissingVersionNumber));
    assert_eq!(split_save("// cqsave \n{}"), Err(SaveError::FailedToParseVersion));
    assert_eq!(split_save("// cqsave x1\n{}"), Err(SaveError::FailedToParseVersion));
    assert_eq!(split_save("// cqsave 4294967296\n{}"), Err(SaveError::FailedToParseVersion));
    assert_eq!(
        split_save("// cqsave 99999999999999999999999999\n"),
        Err(SaveError::FailedToParseVersion)
    );
    assert_eq!(Progress::load(None), Err(SaveError::NoSaveFile));
    assert_eq!(Progress::load(Some("// cqsave 1\n{}")), Ok((1, String::from("{}"))));
}

#[test]
fn save_errors_have_their_words() {
    assert_eq!(SaveError::StorageError.message(), "storage error");
    assert_eq!(SaveError::NoSaveFile.message(), "no save file found");
    assert_eq!(SaveError::InvalidSaveData.message(), "invalid save data");
    assert_eq!(SaveError::MissingVersionNumber.message(), "missing version number");
    assert_eq!(SaveError::FailedToParseVersion.message(), "failed to parse version");
    assert_eq!(SaveError::InvalidSaveVersion.message(), "invalid save version");
    assert_eq!(SaveError::UnknownSaveVersion.message(), "unknown save version");
    assert_eq!(SaveError::FailedToParseSaveData.message(), "failed to parse save data");
}

#[test]
fn only_version_one_is_read() {
    assert_eq!(ProgressV1::check_version(0), Err(SaveError::InvalidSaveVersion));
    assert_eq!(ProgressV1::check_version(1), Ok(()));
    assert_eq!(ProgressV1::check_version(2), Err(SaveError::UnknownSaveVersion));
    let stored = Progress::new().to_v1();
    assert!(matches!(ProgressV1::from_parsed(None, 1), Err(SaveError::FailedToParseSaveData)));
    assert!(matches!(ProgressV1::from_parsed(None, 0), Err(SaveError::InvalidSaveVersion)));
    assert!(matches!(
        ProgressV1::from_parsed(Some(Progress::new().to_v1()), 3),
        Err(SaveError::UnknownSaveVersion)
    ));
    let read = ProgressV1::from_parsed(Some(stored), 1);
    assert!(matches!(read, Ok(p) if p.hp == 50 && p.items.len() == 4));
}

#[test]
fn progress_survives_its_storage_form() {
    let mut p = Progress::new();
    p.hp = 31;
    p.level = 9;
    p.exp = 123;
    p.maybe_upgrade_weapon("Long Sword", 7);
    p.maybe_give_items(Item::XSalve, 2);
    p.magic[2].known = true;
    p.collected_chests.push(String::from("Earth_2"));
    p.turned_levers.push(String::from("Water_3"));
    p.steps[6] = 400;
    p.water_defeated = true;
    let stored = p.to_v1();
    assert_eq!(stored.hp, 31);
    assert!(matches!(stored.items[1], ItemSlotV1 { item: ItemV1::XSalve, amount: 2 }));
    assert!(matches!(stored.magic[2].magic, MagicV1::EarthEdge));
    assert!(stored.magic[2].known);
    let back = Progress::from(stored);
    assert_eq!((back.hp, back.level, back.exp, back.attack), (31, 9, 123, 13));
    assert_eq!(back.weapon.as_ref().unwrap().name, "Long Sword");
    assert!(back.armor.is_none());
    assert_eq!(back.items[1].amount, 2);
    assert_eq!(back.items[1].item, Item::XSalve);
    assert!(back.magic[2].known && !back.magic[0].known);
    assert_eq!(back.collected_chests, vec![String::from("Earth_2")]);
    assert_eq!(back.turned_levers, vec![String::from("Water_3")]);
    assert_eq!(back.steps, vec![0, 0, 0, 0, 0, 0, 400]);
    assert!(back.water_defeated && !back.earth_defeated);
}

#[test]
fn items_are_given_to_the_first_slot_that_holds_them() {
    let mut p = Progress::new();
    p.items.swap(0, 2);
    assert_eq!(p.maybe_give_items(Item::Tonic, 3), 3);
    assert_eq!(p.items[0].item, Item::Tonic);
    assert_eq!(p.items[0].amount, 3);
    assert_eq!(p.maybe_give_items(Item::Salve, 2), 2);
    assert_eq!(p.items[2].amount, 2);
    assert_eq!(p.items[1].amount, 0);
    assert_eq!(p.items[3].amount, 0);
}
