use pigbot::config::GameConfig;
use pigbot::database::Database;
use pigbot::modules::{
    parse_command, BotModule, MessageAction, ModuleKind, ModuleManager,
};
use pigbot::modules::powerful_nahruk::PowerfulNahrukModule;
use pigbot::modules::reactions::ReactionsModule;
use pigbot::game::PigGameModule;

fn full_manager() -> ModuleManager {
    let mut m = ModuleManager::new();
    m.register_module(ModuleKind::PigGame);
    m.register_module(ModuleKind::PowerfulNahruk);
    m.register_module(ModuleKind::Reactions);
    m
}

#[test]
fn declared_commands_are_dispatched() {
    let manager = full_manager();
    let mut db = Database::new();
    let c = GameConfig::default();
    let empty: Vec<String> = Vec::new();
    let (handled, resp) = manager.handle_command(1, 1, "alice", "my", &empty, 1, 0, &mut db, &c);
    assert!(handled);
    assert_eq!(
        resp.unwrap().text.as_str(),
        "You have no pig yet! Create one with /pig <name>"
    );
}

#[test]
fn undeclared_commands_are_not_dispatched() {
    let manager = full_manager();
    let mut db = Database::new();
    let c = GameConfig::default();
    let empty: Vec<String> = Vec::new();
    let (handled, resp) = manager.handle_command(1, 1, "alice", "dance", &empty, 1, 0, &mut db, &c);
    assert!(!handled);
    assert!(resp.is_none());
    assert_eq!(db.get_chat_total_players(1), 0);
}

#[test]
fn registration_order_does_not_hide_the_owner() {
    let mut manager = ModuleManager::new();
    manager.register_module(ModuleKind::Reactions);
    manager.register_module(ModuleKind::PigGame);
    let mut db = Database::new();
    let c = GameConfig::default();
    let empty: Vec<String> = Vec::new();
    let (handled, _) = manager.handle_command(1, 1, "alice", "top", &empty, 1, 0, &mut db, &c);
    assert!(handled);
}

#[test]
fn help_lines_group_commands_by_module() {
    let manager = full_manager();
    let lines = manager.get_all_commands();
    let expected = [
        "Pig Game:",
        "/pig - Create a new pig",
        "/grow - Feed your pig",
        "/my - Show your pig",
        "/pigstats - Show pig statistics",
        "/top - Show the five heaviest pigs",
        "/name - Rename your pig",
        "",
        "Powerful Nahruk:",
        "",
        "Reactions Module:",
        "",
    ];
    assert_eq!(lines.len(), expected.len());
    for (line, want) in lines.iter().zip(expected.iter()) {
        assert_eq!(line.as_str(), *want);
    }
}

#[test]
fn router_answers_help_itself() {
    let manager = full_manager();
    let mut db = Database::new();
    let c = GameConfig::default();
    let out = manager.handle_text_message("/help", 1, 1, "alice", 1, 0, &mut db, &c);
    match out {
        Some(MessageAction::Send(resp)) => {
            assert!(resp.text.as_str().starts_with("Available commands:\n"));
            assert!(resp.text.as_str().contains("/pig - Create a new pig"));
            assert!(resp.text.as_str().contains("Reactions Module:"));
        }
        _ => panic!("expected a help message"),
    }
}

#[test]
fn empty_registry_help_has_the_fixed_report() {
    let manager = ModuleManager::new();
    let mut db = Database::new();
    let c = GameConfig::default();
    let out = manager.handle_text_message("/help", 1, 1, "alice", 1, 0, &mut db, &c);
    match out {
        Some(MessageAction::Send(resp)) => {
            assert_eq!(resp.text.as_str(), "Available commands:\nNo commands available");
        }
        _ => panic!("expected a help message"),
    }
}

#[test]
fn slash_commands_route_to_the_game() {
    let manager = full_manager();
    let mut db = Database::new();
    let c = GameConfig::default();
    let out = manager.handle_text_message("/pig Bob", 1, 1, "alice", 1, 0, &mut db, &c);
    match out {
        Some(MessageAction::Send(resp)) => {
            assert_eq!(
                resp.text.as_str(),
                "Congratulations! alice created a pig: Bob (weight: 0)"
            );
        }
        _ => panic!("expected a send"),
    }
    assert_eq!(db.get_chat_total_players(1), 1);
}

#[test]
fn trigger_words_are_blocked() {
    let mut manager = ModuleManager::new();
    manager.register_module(ModuleKind::PowerfulNahruk);
    let mut db = Database::new();
    let c = GameConfig::default();
    let out = manager.handle_text_message("вот хохол идет", 1, 1, "alice", 1, 0, &mut db, &c);
    match out {
        Some(MessageAction::Send(resp)) => {
            assert_eq!(resp.text.as_str(), "Ваш нахрюк заблокирован ❌");
            assert!(resp.reply);
        }
        _ => panic!("expected the blocking notice"),
    }
    let calm = manager.handle_text_message("a calm message", 1, 1, "alice", 1, 0, &mut db, &c);
    assert!(calm.is_none());
}

#[test]
fn re_registration_keeps_a_module_once() {
    let mut manager = ModuleManager::new();
    manager.register_module(ModuleKind::PigGame);
    manager.register_module(ModuleKind::PowerfulNahruk);
    manager.register_module(ModuleKind::PigGame);
    let lines = manager.get_all_commands();
    let headers = lines.iter().filter(|l| l.as_str() == "Pig Game:").count();
    assert_eq!(headers, 1);
    let mut db = Database::new();
    let c = GameConfig::default();
    let empty: Vec<String> = Vec::new();
    let (handled, _) = manager.handle_command(1, 1, "alice", "my", &empty, 1, 0, &mut db, &c);
    assert!(handled);
}

#[test]
fn commandless_registry_help_has_the_fixed_report() {
    // Only modules that declare no command are registered: the help reply
    // is the fixed report, not their header lines.
    let mut manager = ModuleManager::new();
    manager.register_module(ModuleKind::PowerfulNahruk);
    manager.register_module(ModuleKind::Reactions);
    let mut db = Database::new();
    let c = GameConfig::default();
    let out = manager.handle_text_message("/help", 1, 1, "alice", 1, 0, &mut db, &c);
    match out {
        Some(MessageAction::Send(resp)) => {
            assert_eq!(resp.text.as_str(), "Available commands:\nNo commands available");
        }
        _ => panic!("expected a help message"),
    }
}

#[test]
fn the_word_filter_wins_before_the_reactions_module() {
    // Registration order is the documented tiebreak: the word filter is
    // registered before the reactions module, so a trigger word is always
    // answered with the blocking notice, never with a reaction.
    let manager = full_manager();
    let mut db = Database::new();
    let c = GameConfig::default();
    for _ in 0..20 {
        let out = manager.handle_text_message("снова хохл", 1, 1, "alice", 1, 0, &mut db, &c);
        match out {
            Some(MessageAction::Send(resp)) => {
                assert_eq!(resp.text.as_str(), "Ваш нахрюк заблокирован ❌");
            }
            _ => panic!("expected the blocking notice"),
        }
    }
}

#[test]
fn grow_routes_through_the_router() {
    let manager = full_manager();
    let mut db = Database::new();
    let c = GameConfig::default();
    let out = manager.handle_text_message("/grow Bob", 1, 1, "alice", 1, 900, &mut db, &c);
    assert!(matches!(out, Some(MessageAction::Send(_))));
    let pig = db.get_pig(1, 1).unwrap();
    assert!(pig.weight >= 1);
    assert_eq!(pig.last_feed, 900);
}

#[test]
fn reactions_come_from_the_pool_or_not_at_all() {
    let m = ReactionsModule::new();
    let pool = [":)", ":(", ":D", "xD", ":o", ":P"];
    for _ in 0..50 {
        let r = m.react_to_message();
        assert!(r.is_empty() || pool.iter().any(|e| *e == r));
    }
}

#[test]
fn word_filter_checks_substrings() {
    let m = PowerfulNahrukModule::new();
    assert_eq!(m.check_nahruk("хохол").as_str(), "Ваш нахрюк заблокирован ❌");
    assert_eq!(m.check_nahruk("про украина речь").as_str(), "Ваш нахрюк заблокирован ❌");
    assert_eq!(m.check_nahruk("хохлы кругом").as_str(), "Ваш нахрюк заблокирован ❌");
    assert_eq!(m.check_nahruk("nothing here").as_str(), "");
    // The filter is case-sensitive, as it has always been.
    assert_eq!(m.check_nahruk("ХОХОЛ").as_str(), "");
}

#[test]
fn module_names_and_tables_are_declared() {
    assert_eq!(BotModule::name(&PigGameModule::new()), "Pig Game");
    assert_eq!(BotModule::name(&PowerfulNahrukModule::new()), "Powerful Nahruk");
    assert_eq!(BotModule::name(&ReactionsModule::new()), "Reactions Module");
    let cmds = BotModule::commands(&PigGameModule::new());
    assert_eq!(cmds.len(), 6);
    assert_eq!(cmds[0].0, "pig");
    assert_eq!(cmds[5].0, "name");
    assert_eq!(BotModule::commands(&ReactionsModule::new()).len(), 0);
}

#[test]
fn command_parsing_splits_keyword_and_arguments() {
    let (cmd, args) = parse_command("/pig Bob the Pig").unwrap();
    assert_eq!(cmd.as_str(), "pig");
    assert_eq!(args.len(), 3);
    assert_eq!(args[0].as_str(), "Bob");
    assert_eq!(args[2].as_str(), "Pig");
    assert!(parse_command("pig").is_none());
    assert!(parse_command("").is_none());
    assert!(parse_command("/").is_none());
    assert!(parse_command("/   ").is_none());
    let (lone, no_args) = parse_command("/top").unwrap();
    assert_eq!(lone.as_str(), "top");
    assert_eq!(no_args.len(), 0);
}
