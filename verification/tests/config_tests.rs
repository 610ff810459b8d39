use pigbot::config::{Config, GPTConfig, GameConfig};

#[test]
fn default_tunables_are_the_deployment_values() {
    let c = GameConfig::default();
    assert_eq!(c.base_growth_milli, 500);
    assert_eq!(c.rank_factor_milli, 500);
    assert_eq!(c.weight_factor_milli, 500);
    assert_eq!(c.feed_delay, 4);
    assert_eq!(c.salo_delay, 8);
    assert_eq!(c.max_items, 15);
    assert_eq!(c.base_pills_chance_milli, 330);
    assert_eq!(c.base_pills_chance_grow_milli, 750);
    assert_eq!(c.start_weight, 0);
    assert!(c.is_valid());
}

#[test]
fn out_of_bound_tunables_are_rejected() {
    let mut c = GameConfig::default();
    c.base_growth_milli = 1000001;
    assert!(!c.is_valid());
    let mut d = GameConfig::default();
    d.start_weight = -1;
    assert!(!d.is_valid());
}

#[test]
fn the_configuration_surface_is_carried() {
    let config = Config {
        gpt: GPTConfig {
            llm_api_url: "http://localhost".to_string(),
            llm_api_token: "token".to_string(),
        },
        game: GameConfig::default(),
        database_url: Some("postgres://localhost/pigs".to_string()),
    };
    assert_eq!(config.gpt.llm_api_url.as_str(), "http://localhost");
    assert_eq!(config.database_url.as_deref(), Some("postgres://localhost/pigs"));
}
