use pigbot::config::GameConfig;
use pigbot::database::Database;
use pigbot::game::PigGameModule;

fn args(words: &[&str]) -> Vec<String> {
    words.iter().map(|w| w.to_string()).collect()
}

fn setup() -> (PigGameModule, Database, GameConfig) {
    (PigGameModule::new(), Database::new(), GameConfig::default())
}

#[test]
fn creation_is_exactly_once() {
    let (m, mut db, c) = setup();
    let first = m.handle_pig_command(1, 10, "alice", "pig", &args(&["Bob"]), 100, 0, &mut db, &c);
    assert_eq!(
        first.text.as_str(),
        "Congratulations! alice created a pig: Bob (weight: 0)"
    );
    assert_eq!(db.get_chat_total_players(1), 1);
    let second = m.handle_pig_command(1, 10, "alice", "pig", &args(&["Carl"]), 100, 0, &mut db, &c);
    assert_eq!(second.text.as_str(), "You already have a pig: Bob (weight: 0)");
    assert_eq!(db.get_chat_total_players(1), 1);
    assert_eq!(db.get_pig(1, 10).unwrap().name.as_str(), "Bob");
}

#[test]
fn creation_without_a_name_uses_a_default() {
    let (m, mut db, c) = setup();
    m.handle_pig_command(1, 10, "alice", "pig", &args(&[]), 100, 0, &mut db, &c);
    let created = db.get_pig(1, 10).unwrap();
    let pool = [
        "Oinkers",
        "Porkchop",
        "Hamlet",
        "Truffle",
        "Snoutly",
        "Baconator",
        "Mudball",
        "Sir Oinksalot",
        "Pigasus",
        "Chop",
    ];
    assert!(pool.iter().any(|n| *n == created.name.as_str()));
}

#[test]
fn grow_creates_and_feeds_within_the_range() {
    let (m, mut db, c) = setup();
    let r = m.handle_pig_command(1, 10, "alice", "grow", &args(&["Bob"]), 100, 5000, &mut db, &c);
    let pig = db.get_pig(1, 10).unwrap();
    // Solo player starting at 0: the delta lies in [-15, 45] and the floor
    // at one applies.
    assert!(1 <= pig.weight && pig.weight <= 45);
    assert_eq!(pig.last_feed, 5000);
    assert!(r.text.as_str().starts_with("Your pig Bob"));
}

#[test]
fn grow_on_an_existing_pig_updates_it() {
    let (m, mut db, c) = setup();
    m.handle_pig_command(1, 10, "alice", "pig", &args(&["Bob"]), 100, 0, &mut db, &c);
    m.handle_pig_command(1, 10, "alice", "grow", &args(&[]), 100, 777, &mut db, &c);
    let pig = db.get_pig(1, 10).unwrap();
    assert!(pig.weight >= 1);
    assert_eq!(pig.last_feed, 777);
    assert_eq!(db.get_chat_total_players(1), 1);
}

#[test]
fn info_view_is_idempotent() {
    let (m, mut db, c) = setup();
    m.handle_pig_command(1, 10, "alice", "pig", &args(&["Bob"]), 100, 0, &mut db, &c);
    let first = m.handle_pig_command(1, 10, "alice", "my", &args(&[]), 100, 1, &mut db, &c);
    let second = m.handle_pig_command(1, 10, "alice", "my", &args(&[]), 100, 2, &mut db, &c);
    assert_eq!(first.text.as_str(), second.text.as_str());
    assert_eq!(first.text.as_str(), "Your pig Bob weighs 0 kg. Rank in top: 1.");
    let pig = db.get_pig(1, 10).unwrap();
    assert_eq!(pig.weight, 0);
    assert_eq!(pig.last_feed, 0);
}

#[test]
fn stats_view_is_idempotent() {
    let (m, mut db, c) = setup();
    m.handle_pig_command(1, 10, "alice", "pig", &args(&["Bob"]), 100, 0, &mut db, &c);
    let first = m.handle_pig_command(1, 10, "alice", "pigstats", &args(&[]), 100, 1, &mut db, &c);
    let second = m.handle_pig_command(1, 10, "alice", "pigstats", &args(&[]), 100, 2, &mut db, &c);
    assert_eq!(first.text.as_str(), second.text.as_str());
    assert_eq!(first.text.as_str(), "Your pig: Bob, weight: 0 kg, barn: 0");
    assert_eq!(db.get_pig(1, 10).unwrap().last_feed, 0);
}

#[test]
fn info_view_attaches_the_control_set() {
    let (m, mut db, c) = setup();
    m.handle_pig_command(1, 10, "alice", "pig", &args(&["Bob"]), 100, 0, &mut db, &c);
    let r = m.handle_pig_command(1, 10, "alice", "my", &args(&[]), 4242, 0, &mut db, &c);
    let kb = r.keyboard.unwrap();
    assert_eq!(kb.rows.len(), 2);
    assert_eq!(kb.rows[0][0].label.as_str(), "Grow!");
    assert_eq!(kb.rows[0][0].action.as_str(), "grow:10");
    assert_eq!(kb.rows[1][0].label.as_str(), "Delete");
    assert_eq!(kb.rows[1][0].action.as_str(), "remove:4242");
}

#[test]
fn info_view_without_a_pig_explains_creation() {
    let (m, mut db, c) = setup();
    let r = m.handle_pig_command(1, 10, "alice", "my", &args(&[]), 1, 0, &mut db, &c);
    assert_eq!(r.text.as_str(), "You have no pig yet! Create one with /pig <name>");
    assert!(r.keyboard.is_none());
}

#[test]
fn stats_search_finds_by_substring() {
    let (m, mut db, c) = setup();
    m.handle_pig_command(1, 10, "alice", "pig", &args(&["Porkchop"]), 1, 0, &mut db, &c);
    let hit = m.handle_pig_command(1, 11, "bob", "pigstats", &args(&["PORK"]), 1, 0, &mut db, &c);
    assert_eq!(hit.text.as_str(), "Porkchop - owner: alice, weight: 0 kg, barn: 0");
    let miss = m.handle_pig_command(1, 11, "bob", "pigstats", &args(&["zzz"]), 1, 0, &mut db, &c);
    assert_eq!(miss.text.as_str(), "No pig named 'zzz' was found");
}

#[test]
fn top_lists_up_to_five_by_weight() {
    let (m, mut db, c) = setup();
    let empty = m.handle_pig_command(1, 10, "alice", "top", &args(&[]), 1, 0, &mut db, &c);
    assert_eq!(empty.text.as_str(), "There are no pigs in this chat yet.");
    m.handle_pig_command(1, 10, "alice", "pig", &args(&["Bob"]), 1, 0, &mut db, &c);
    m.handle_pig_command(1, 11, "berta", "pig", &args(&["Carl"]), 1, 0, &mut db, &c);
    // One growth cycle makes Carl's weight at least one, so Carl leads Bob.
    m.handle_pig_command(1, 11, "berta", "grow", &args(&[]), 1, 0, &mut db, &c);
    let top = m.handle_pig_command(1, 12, "cesar", "top", &args(&[]), 1, 0, &mut db, &c);
    let carl = db.get_pig(1, 11).unwrap();
    let expected = format!(
        "Top 5 pigs in this chat:\n#1 Carl - {} kg (owner: berta)\n#2 Bob - 0 kg (owner: alice)",
        carl.weight
    );
    assert_eq!(top.text.as_str(), expected.as_str());
}

#[test]
fn rename_accepts_thirty_one_perceived_characters() {
    let (m, mut db, c) = setup();
    let name31: String = "a".repeat(31);
    let r = m.handle_pig_command(1, 10, "alice", "name", &args(&[name31.as_str()]), 1, 0, &mut db, &c);
    assert_eq!(r.text.as_str(), format!("Created a new pig named '{}'!", name31).as_str());
    assert_eq!(db.get_pig(1, 10).unwrap().name.as_str(), name31.as_str());
}

#[test]
fn rename_rejects_thirty_two_perceived_characters() {
    let (m, mut db, c) = setup();
    m.handle_pig_command(1, 10, "alice", "pig", &args(&["Bob"]), 1, 0, &mut db, &c);
    let name32: String = "a".repeat(32);
    let r = m.handle_pig_command(1, 10, "alice", "name", &args(&[name32.as_str()]), 1, 0, &mut db, &c);
    assert_eq!(r.text.as_str(), "That name is too long: pick one under 32 characters.");
    assert!(r.reply);
    assert_eq!(db.get_pig(1, 10).unwrap().name.as_str(), "Bob");
}

#[test]
fn rename_counts_graphemes_not_code_points() {
    let (m, mut db, c) = setup();
    m.handle_pig_command(1, 10, "alice", "pig", &args(&["Bob"]), 1, 0, &mut db, &c);
    // Thirty base letters plus a letter with a combining accent: thirty-two
    // code points but thirty-one user-perceived characters.
    let tricky = format!("{}e\u{0301}", "a".repeat(30));
    assert_eq!(tricky.chars().count(), 32);
    let r = m.handle_pig_command(1, 10, "alice", "name", &args(&[tricky.as_str()]), 1, 0, &mut db, &c);
    assert_eq!(r.text.as_str(), format!("Your pig is now called {}", tricky).as_str());
    assert_eq!(db.get_pig(1, 10).unwrap().name.as_str(), tricky.as_str());
}

#[test]
fn rename_on_an_existing_pig_renames_in_place() {
    let (m, mut db, c) = setup();
    m.handle_pig_command(1, 10, "alice", "pig", &args(&["Bob"]), 1, 0, &mut db, &c);
    let r = m.handle_pig_command(1, 10, "alice", "name", &args(&["New", "Name"]), 1, 0, &mut db, &c);
    assert_eq!(r.text.as_str(), "Your pig is now called New Name");
    assert_eq!(db.get_pig(1, 10).unwrap().name.as_str(), "New Name");
    assert_eq!(db.get_chat_total_players(1), 1);
}

#[test]
fn rename_without_a_name_prompts() {
    let (m, mut db, c) = setup();
    let r = m.handle_pig_command(1, 10, "alice", "name", &args(&[]), 1, 0, &mut db, &c);
    assert_eq!(r.text.as_str(), "Give the pig a name.");
    assert!(r.reply);
}

#[test]
fn unknown_pig_keyword_is_reported() {
    let (m, mut db, c) = setup();
    let r = m.handle_pig_command(1, 10, "alice", "fly", &args(&[]), 1, 0, &mut db, &c);
    assert_eq!(r.text.as_str(), "Unknown pig command");
}

#[test]
fn growth_range_door_matches_the_engine() {
    let m = PigGameModule::new();
    let c = GameConfig::default();
    assert_eq!(m.calculate_grow_range(10, 1, 1, &c), (-15, 45));
}
