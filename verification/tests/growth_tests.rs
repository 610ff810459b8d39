use pigbot::config::GameConfig;
use pigbot::growth::{apply_growth, compute_growth_range, sample_growth};

fn half_tunables() -> GameConfig {
    GameConfig::default()
}

#[test]
fn solo_player_range_is_exact() {
    // population = 1, rank = 1, score = 10, all factors 0.5:
    // max_loss = floor(0.5 * 10 * 0.5 * (1 - 1/1)) + 15 = 15
    // max_gain = floor(0.5 * 10 * 2 * (1 / (2 - 1/1))) + 35 = 45
    let c = half_tunables();
    let (min, max) = compute_growth_range(10, 1, 1, &c);
    assert_eq!(min, -15);
    assert_eq!(max, 45);
}

#[test]
fn hundred_samples_fall_in_range() {
    let c = half_tunables();
    let (min, max) = compute_growth_range(10, 1, 1, &c);
    for _ in 0..100 {
        let delta = sample_growth(min, max);
        assert!(min <= delta && delta <= max);
    }
}

#[test]
fn mid_field_range_is_exact() {
    // score = 100, rank = 2, population = 4, factors 0.5:
    // loss num = 500 * 500 * 100 * 2 = 50_000_000; den = 1_000_000 * 4
    // -> floor 12 -> max_loss 27
    // gain num = 2 * 500 * 100 * 4 = 400_000; den = 1000 * 6 -> floor 66
    // -> max_gain 101
    let c = half_tunables();
    let (min, max) = compute_growth_range(100, 2, 4, &c);
    assert_eq!(min, -27);
    assert_eq!(max, 101);
}

#[test]
fn front_runner_loses_more_than_trailer() {
    let c = half_tunables();
    let (first_min, first_max) = compute_growth_range(100, 1, 10, &c);
    let (last_min, last_max) = compute_growth_range(100, 10, 10, &c);
    // The catch-up policy: first place risks more loss and gains less.
    assert!(first_min <= last_min);
    assert!(first_max <= last_max);
}

#[test]
fn range_always_straddles_zero() {
    let c = half_tunables();
    let cases: [(i64, i64, i64); 4] = [(0, 1, 1), (1, 1, 2), (1000, 3, 7), (999999, 1, 999999)];
    for (score, rank, population) in cases {
        let (min, max) = compute_growth_range(score, rank, population, &c);
        assert!(min <= -15);
        assert!(max >= 35);
    }
}

#[test]
fn degenerate_range_yields_its_value() {
    assert_eq!(sample_growth(7, 7), 7);
    assert_eq!(sample_growth(-3, -3), -3);
}

#[test]
fn weight_never_drops_below_one() {
    assert_eq!(apply_growth(5, -100), 1);
    assert_eq!(apply_growth(1, -1), 1);
    assert_eq!(apply_growth(0, 0), 1);
    assert_eq!(apply_growth(5, 10), 15);
    assert_eq!(apply_growth(0, 45), 45);
}
