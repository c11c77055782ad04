use music_game::judgment::JudgmentLevel;
use music_game::score::Scoreboard;

#[test]
fn ledger_starts_at_zero() {
    let sb = Scoreboard::new();
    assert_eq!(sb.combo, 0);
    assert_eq!(sb.wonderful, 0);
    assert_eq!(sb.perfect, 0);
    assert_eq!(sb.good, 0);
    assert_eq!(sb.bad, 0);
    assert_eq!(sb.miss, 0);
}

#[test]
fn combo_grows_on_wonderful_and_perfect() {
    let mut sb = Scoreboard::new();
    sb.wonderful();
    assert_eq!(sb.combo, 1);
    sb.perfect();
    assert_eq!(sb.combo, 2);
    assert_eq!(sb.wonderful, 1);
    assert_eq!(sb.perfect, 1);
}

#[test]
fn combo_resets_on_good_bad_and_miss() {
    let mut sb = Scoreboard::new();
    sb.wonderful();
    sb.wonderful();
    assert_eq!(sb.combo, 2);
    sb.good();
    assert_eq!(sb.combo, 0);
    assert_eq!(sb.good, 1);

    sb.perfect();
    assert_eq!(sb.combo, 1);
    sb.bad();
    assert_eq!(sb.combo, 0);
    assert_eq!(sb.bad, 1);

    sb.wonderful();
    assert_eq!(sb.combo, 1);
    sb.miss();
    assert_eq!(sb.combo, 0);
    assert_eq!(sb.miss, 1);
}

#[test]
fn counters_never_shrink() {
    let mut sb = Scoreboard::new();
    sb.wonderful();
    sb.perfect();
    sb.good();
    sb.bad();
    sb.miss();
    assert_eq!(sb.wonderful, 1);
    assert_eq!(sb.perfect, 1);
    assert_eq!(sb.good, 1);
    assert_eq!(sb.bad, 1);
    assert_eq!(sb.miss, 1);
}

#[test]
fn counter_lookup_matches_fields() {
    let mut sb = Scoreboard::new();
    sb.wonderful();
    sb.wonderful();
    sb.bad();
    assert_eq!(sb.counter(JudgmentLevel::Wonderful), Some(2));
    assert_eq!(sb.counter(JudgmentLevel::Perfect), Some(0));
    assert_eq!(sb.counter(JudgmentLevel::Good), Some(0));
    assert_eq!(sb.counter(JudgmentLevel::Bad), Some(1));
    assert_eq!(sb.counter(JudgmentLevel::Miss), Some(0));
    assert_eq!(sb.counter(JudgmentLevel::NoTier), None);
}
