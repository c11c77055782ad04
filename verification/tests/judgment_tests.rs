use music_game::judgment::JudgmentLevel;
use music_game::lane::TIMING_BLOCK_POSITION_Y;

#[test]
fn wonderful_only_on_exact_target_line() {
    assert_eq!(JudgmentLevel::check(TIMING_BLOCK_POSITION_Y), JudgmentLevel::Wonderful);
    assert_eq!(JudgmentLevel::check(-220), JudgmentLevel::Wonderful);
    assert_ne!(JudgmentLevel::check(-221), JudgmentLevel::Wonderful);
    assert_ne!(JudgmentLevel::check(-219), JudgmentLevel::Wonderful);
}

#[test]
fn perfect_window_edges() {
    assert_eq!(JudgmentLevel::check(-240), JudgmentLevel::Perfect);
    assert_eq!(JudgmentLevel::check(-210), JudgmentLevel::Perfect);
    assert_eq!(JudgmentLevel::check(-215), JudgmentLevel::Perfect);
    assert_eq!(JudgmentLevel::check(-241), JudgmentLevel::Good);
    assert_eq!(JudgmentLevel::check(-209), JudgmentLevel::Good);
}

#[test]
fn good_window_edges() {
    assert_eq!(JudgmentLevel::check(-290), JudgmentLevel::Good);
    assert_eq!(JudgmentLevel::check(-180), JudgmentLevel::Good);
    assert_eq!(JudgmentLevel::check(-291), JudgmentLevel::Bad);
    assert_eq!(JudgmentLevel::check(-179), JudgmentLevel::Bad);
}

#[test]
fn bad_window_edges() {
    assert_eq!(JudgmentLevel::check(-330), JudgmentLevel::Bad);
    assert_eq!(JudgmentLevel::check(-160), JudgmentLevel::Bad);
    assert_eq!(JudgmentLevel::check(-331), JudgmentLevel::NoTier);
    assert_eq!(JudgmentLevel::check(-159), JudgmentLevel::NoTier);
}

#[test]
fn far_positions_earn_no_tier() {
    assert_eq!(JudgmentLevel::check(300), JudgmentLevel::NoTier);
    assert_eq!(JudgmentLevel::check(0), JudgmentLevel::NoTier);
    assert_eq!(JudgmentLevel::check(-400), JudgmentLevel::NoTier);
}

#[test]
fn strictest_tier_wins_inside_nested_windows() {
    // Every Perfect position is also inside the Good and Bad windows, yet
    // the classifier never answers with the looser tier.
    for y in -240..=-210 {
        let level = JudgmentLevel::check(y);
        assert!(level == JudgmentLevel::Perfect || level == JudgmentLevel::Wonderful);
    }
    for y in -290..=-180 {
        let level = JudgmentLevel::check(y);
        assert!(level != JudgmentLevel::Bad && level != JudgmentLevel::NoTier);
    }
}
