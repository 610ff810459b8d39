use pigbot::database::{Database, Loot, Pig, StorageError};

fn draft(chat_id: i64, user_id: i64, name: &str, weight: i64) -> Pig {
    Pig {
        id: 0,
        chat_id,
        user_id,
        weight,
        name: name.to_string(),
        last_feed: 0,
        last_salo: 0,
        owner_name: "owner".to_string(),
        salo: 0,
        poisoned: false,
        barn: 0,
        pigsty: 0,
        vetclinic: 0,
        vet_last_pickup: 0,
        last_weight: 0,
        avatar_url: None,
        biolab: 0,
        butchery: 0,
        pills: 0,
        factory: 0,
        warehouse: 0,
        institute: 0,
    }
}

fn loot_draft(chat_id: i64, owner: i64, name: &str) -> Loot {
    Loot {
        id: 0,
        chat_id,
        owner,
        name: name.to_string(),
        icon: "i".to_string(),
        description: None,
        class_name: "c".to_string(),
        class_icon: "ci".to_string(),
        weight_milli: 1500,
        base_stats: "{}".to_string(),
        rarity: "{}".to_string(),
        uuid: 7,
    }
}

#[test]
fn create_assigns_ids_in_insertion_order() {
    let mut db = Database::new();
    let a = db.create_pig(&draft(1, 10, "A", 5)).unwrap();
    let b = db.create_pig(&draft(1, 11, "B", 9)).unwrap();
    assert_eq!(a.id, 1);
    assert_eq!(b.id, 2);
}

#[test]
fn get_returns_the_single_row_or_nothing() {
    let mut db = Database::new();
    db.create_pig(&draft(1, 10, "A", 5)).unwrap();
    let found = db.get_pig(1, 10).unwrap();
    assert_eq!(found.name.as_str(), "A");
    assert_eq!(found.weight, 5);
    assert!(db.get_pig(1, 11).is_none());
    assert!(db.get_pig(2, 10).is_none());
}

#[test]
fn duplicate_key_is_rejected() {
    let mut db = Database::new();
    db.create_pig(&draft(1, 10, "A", 5)).unwrap();
    let second = db.create_pig(&draft(1, 10, "B", 9));
    assert_eq!(second.unwrap_err(), StorageError::DuplicateKey);
    assert_eq!(db.get_chat_total_players(1), 1);
    assert_eq!(db.get_pig(1, 10).unwrap().name.as_str(), "A");
}

#[test]
fn update_replaces_fields_and_keeps_the_id() {
    let mut db = Database::new();
    db.create_pig(&draft(1, 10, "A", 5)).unwrap();
    let mut changed = draft(1, 10, "A2", 40);
    changed.barn = 3;
    let updated = db.update_pig(&changed).unwrap();
    assert_eq!(updated.id, 1);
    assert_eq!(updated.weight, 40);
    let read = db.get_pig(1, 10).unwrap();
    assert_eq!(read.name.as_str(), "A2");
    assert_eq!(read.barn, 3);
}

#[test]
fn update_without_a_row_fails() {
    let mut db = Database::new();
    let missing = db.update_pig(&draft(1, 10, "A", 5));
    assert_eq!(missing.unwrap_err(), StorageError::NoSuchRow);
}

#[test]
fn rename_touches_only_the_name() {
    let mut db = Database::new();
    db.create_pig(&draft(1, 10, "A", 5)).unwrap();
    db.update_pig_name(1, 10, "Renamed").unwrap();
    let read = db.get_pig(1, 10).unwrap();
    assert_eq!(read.name.as_str(), "Renamed");
    assert_eq!(read.weight, 5);
    assert_eq!(
        db.update_pig_name(1, 99, "X").unwrap_err(),
        StorageError::NoSuchRow
    );
}

#[test]
fn population_counts_only_the_chat() {
    let mut db = Database::new();
    db.create_pig(&draft(1, 10, "A", 5)).unwrap();
    db.create_pig(&draft(1, 11, "B", 9)).unwrap();
    db.create_pig(&draft(2, 10, "C", 7)).unwrap();
    assert_eq!(db.get_chat_total_players(1), 2);
    assert_eq!(db.get_chat_total_players(2), 1);
    assert_eq!(db.get_chat_total_players(3), 0);
}

#[test]
fn rank_orders_by_descending_weight() {
    let mut db = Database::new();
    db.create_pig(&draft(1, 10, "A", 5)).unwrap();
    db.create_pig(&draft(1, 11, "B", 9)).unwrap();
    db.create_pig(&draft(1, 12, "C", 7)).unwrap();
    assert_eq!(db.get_pig_rank(1, 11), Some(1));
    assert_eq!(db.get_pig_rank(1, 12), Some(2));
    assert_eq!(db.get_pig_rank(1, 10), Some(3));
    assert_eq!(db.get_pig_rank(1, 99), None);
}

#[test]
fn equal_weights_rank_by_insertion() {
    let mut db = Database::new();
    db.create_pig(&draft(1, 10, "A", 7)).unwrap();
    db.create_pig(&draft(1, 11, "B", 7)).unwrap();
    assert_eq!(db.get_pig_rank(1, 10), Some(1));
    assert_eq!(db.get_pig_rank(1, 11), Some(2));
}

#[test]
fn ranked_listing_is_sorted_with_stable_ties() {
    let mut db = Database::new();
    db.create_pig(&draft(1, 10, "A", 5)).unwrap();
    db.create_pig(&draft(1, 11, "B", 9)).unwrap();
    db.create_pig(&draft(1, 12, "C", 9)).unwrap();
    db.create_pig(&draft(2, 13, "D", 50)).unwrap();
    let ranked = db.get_chat_pigs_ranked(1);
    assert_eq!(ranked.len(), 3);
    assert_eq!(ranked[0].name.as_str(), "B");
    assert_eq!(ranked[1].name.as_str(), "C");
    assert_eq!(ranked[2].name.as_str(), "A");
}

#[test]
fn name_search_is_case_insensitive_substring() {
    let mut db = Database::new();
    db.create_pig(&draft(1, 10, "Porkchop", 5)).unwrap();
    db.create_pig(&draft(1, 11, "Hamlet", 9)).unwrap();
    let hits = db.find_pig_by_name(1, "PORK");
    assert_eq!(hits.len(), 1);
    assert_eq!(hits[0].name.as_str(), "Porkchop");
    assert_eq!(db.find_pig_by_name(1, "let").len(), 1);
    assert_eq!(db.find_pig_by_name(1, "zzz").len(), 0);
}

#[test]
fn name_search_folds_non_ascii_case_pairs() {
    let mut db = Database::new();
    db.create_pig(&draft(1, 10, "Хряк Борис", 5)).unwrap();
    let hits = db.find_pig_by_name(1, "хряк");
    assert_eq!(hits.len(), 1);
    assert_eq!(hits[0].name.as_str(), "Хряк Борис");
    assert_eq!(db.find_pig_by_name(1, "БОРИС").len(), 1);
    assert_eq!(db.find_pig_by_name(1, "кабан").len(), 0);
}

#[test]
fn loot_is_scoped_to_chat_and_owner() {
    let mut db = Database::new();
    let added = db.add_loot(&loot_draft(1, 10, "Helmet")).unwrap();
    assert_eq!(added.id, 1);
    db.add_loot(&loot_draft(1, 11, "Sword")).unwrap();
    db.add_loot(&loot_draft(2, 10, "Shield")).unwrap();
    let mine = db.get_user_loot(1, 10);
    assert_eq!(mine.len(), 1);
    assert_eq!(mine[0].name.as_str(), "Helmet");
    assert_eq!(db.get_user_loot(3, 10).len(), 0);
}
