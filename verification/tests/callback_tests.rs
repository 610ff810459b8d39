use pigbot::config::GameConfig;
use pigbot::database::Database;
use pigbot::game::callbacks::{
    encode_callback_action, parse_callback_action, CallbackAction, CallbackOutcome,
};
use pigbot::game::PigGameModule;
use pigbot::modules::ValidationError;

fn args(words: &[&str]) -> Vec<String> {
    words.iter().map(|w| w.to_string()).collect()
}

#[test]
fn encoding_round_trips() {
    let actions = [
        CallbackAction::Grow(5),
        CallbackAction::Grow(-12),
        CallbackAction::Remove(0),
        CallbackAction::Remove(i64::MAX),
        CallbackAction::Back(i64::MIN),
    ];
    for a in actions {
        let wire = encode_callback_action(&a);
        assert_eq!(parse_callback_action(wire.as_str()).unwrap(), a);
    }
}

#[test]
fn encoding_is_the_documented_wire_format() {
    assert_eq!(encode_callback_action(&CallbackAction::Grow(7)).as_str(), "grow:7");
    assert_eq!(encode_callback_action(&CallbackAction::Remove(42)).as_str(), "remove:42");
    assert_eq!(encode_callback_action(&CallbackAction::Back(-3)).as_str(), "back:-3");
}

#[test]
fn mangled_payloads_are_validation_failures() {
    assert_eq!(
        parse_callback_action("grow:abc").unwrap_err(),
        ValidationError::MalformedPayload
    );
    assert_eq!(
        parse_callback_action("grow:").unwrap_err(),
        ValidationError::MalformedPayload
    );
    assert_eq!(
        parse_callback_action("grow:007").unwrap_err(),
        ValidationError::MalformedPayload
    );
    assert_eq!(
        parse_callback_action("remove:1x").unwrap_err(),
        ValidationError::MalformedPayload
    );
}

#[test]
fn unknown_actions_are_not_validation_failures() {
    assert_eq!(
        parse_callback_action("fly:1").unwrap_err(),
        ValidationError::UnknownAction
    );
    assert_eq!(parse_callback_action("").unwrap_err(), ValidationError::UnknownAction);
    assert_eq!(parse_callback_action("grow").unwrap_err(), ValidationError::UnknownAction);
}

#[test]
fn foreign_grow_is_rejected_without_any_write() {
    let m = PigGameModule::new();
    let mut db = Database::new();
    let c = GameConfig::default();
    m.handle_pig_command(1, 1, "alice", "pig", &args(&["Bob"]), 1, 0, &mut db, &c);
    let before = db.get_pig(1, 1).unwrap();
    let out = m.handle_callback_query(Some("grow:1"), 1, 2, 9, false, 555, &mut db, &c);
    match out {
        CallbackOutcome::Notice { text } => {
            assert_eq!(text.as_str(), "This grow button is not yours!");
        }
        _ => panic!("expected a notice"),
    }
    let after = db.get_pig(1, 1).unwrap();
    assert_eq!(after.weight, before.weight);
    assert_eq!(after.last_feed, before.last_feed);
    assert_eq!(db.get_chat_total_players(1), 1);
}

#[test]
fn own_grow_feeds_and_offers_the_back_control() {
    let m = PigGameModule::new();
    let mut db = Database::new();
    let c = GameConfig::default();
    m.handle_pig_command(1, 1, "alice", "pig", &args(&["Bob"]), 1, 0, &mut db, &c);
    let out = m.handle_callback_query(Some("grow:1"), 1, 1, 9, false, 555, &mut db, &c);
    match out {
        CallbackOutcome::Edit { text, keyboard } => {
            assert!(text.as_str().starts_with("Your pig Bob"));
            assert_eq!(keyboard.rows.len(), 1);
            assert_eq!(keyboard.rows[0][0].label.as_str(), "Back");
            assert_eq!(keyboard.rows[0][0].action.as_str(), "back:1");
        }
        _ => panic!("expected an edit"),
    }
    let pig = db.get_pig(1, 1).unwrap();
    assert!(pig.weight >= 1);
    assert_eq!(pig.last_feed, 555);
}

#[test]
fn grow_without_a_pig_says_so() {
    let m = PigGameModule::new();
    let mut db = Database::new();
    let c = GameConfig::default();
    let out = m.handle_callback_query(Some("grow:2"), 1, 2, 9, false, 0, &mut db, &c);
    match out {
        CallbackOutcome::Notice { text } => assert_eq!(text.as_str(), "You have no pig!"),
        _ => panic!("expected a notice"),
    }
}

#[test]
fn back_re_renders_the_info_view() {
    let m = PigGameModule::new();
    let mut db = Database::new();
    let c = GameConfig::default();
    m.handle_pig_command(1, 1, "alice", "pig", &args(&["Bob"]), 1, 0, &mut db, &c);
    let out = m.handle_callback_query(Some("back:1"), 1, 1, 77, false, 0, &mut db, &c);
    match out {
        CallbackOutcome::Edit { text, keyboard } => {
            assert_eq!(text.as_str(), "Your pig Bob weighs 0 kg. Rank in top: 1.");
            assert_eq!(keyboard.rows.len(), 2);
            assert_eq!(keyboard.rows[1][0].action.as_str(), "remove:77");
        }
        _ => panic!("expected an edit"),
    }
}

#[test]
fn foreign_back_is_rejected() {
    let m = PigGameModule::new();
    let mut db = Database::new();
    let c = GameConfig::default();
    m.handle_pig_command(1, 1, "alice", "pig", &args(&["Bob"]), 1, 0, &mut db, &c);
    let out = m.handle_callback_query(Some("back:1"), 1, 2, 77, false, 0, &mut db, &c);
    match out {
        CallbackOutcome::Notice { text } => assert_eq!(text.as_str(), "This pig is not yours!"),
        _ => panic!("expected a notice"),
    }
}

#[test]
fn remove_deletes_the_original_only_under_privilege() {
    let m = PigGameModule::new();
    let mut db = Database::new();
    let c = GameConfig::default();
    let privileged = m.handle_callback_query(Some("remove:7"), 1, 1, 9, true, 0, &mut db, &c);
    assert!(matches!(privileged, CallbackOutcome::Delete { original: Some(7) }));
    let plain = m.handle_callback_query(Some("remove:7"), 1, 1, 9, false, 0, &mut db, &c);
    assert!(matches!(plain, CallbackOutcome::Delete { original: None }));
}

#[test]
fn absent_payload_is_ignored() {
    let m = PigGameModule::new();
    let mut db = Database::new();
    let c = GameConfig::default();
    let out = m.handle_callback_query(None, 1, 1, 9, false, 0, &mut db, &c);
    assert!(matches!(out, CallbackOutcome::Ignore));
}

#[test]
fn unknown_payload_gets_the_unknown_notice() {
    let m = PigGameModule::new();
    let mut db = Database::new();
    let c = GameConfig::default();
    let out = m.handle_callback_query(Some("fly:1"), 1, 1, 9, false, 0, &mut db, &c);
    match out {
        CallbackOutcome::Notice { text } => assert_eq!(text.as_str(), "Unknown command"),
        _ => panic!("expected a notice"),
    }
    let bad = m.handle_callback_query(Some("grow:zz"), 1, 1, 9, false, 0, &mut db, &c);
    match bad {
        CallbackOutcome::Notice { text } => assert_eq!(text.as_str(), "Malformed callback data"),
        _ => panic!("expected a notice"),
    }
}
