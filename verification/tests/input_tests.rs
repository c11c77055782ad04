use music_game::input::contains_key;
use music_game::input::InputMatcher;
use music_game::lane::BlockLocation;
use music_game::lane::KeyBindings;

#[test]
fn default_bindings_are_distinct_letters() {
    let binds = KeyBindings::new();
    let a = binds.get_key(BlockLocation::A);
    let b = binds.get_key(BlockLocation::B);
    let c = binds.get_key(BlockLocation::C);
    let d = binds.get_key(BlockLocation::D);
    assert_eq!((a, b, c, d), (100, 102, 106, 107));
}

#[test]
fn contains_key_finds_only_present_codes() {
    let keys = vec![3u32, 100, 42];
    assert!(contains_key(&keys, 100));
    assert!(contains_key(&keys, 3));
    assert!(!contains_key(&keys, 101));
    assert!(!contains_key(&Vec::new(), 100));
}

#[test]
fn press_edge_fires_once_for_a_held_key() {
    let binds = KeyBindings::new();
    let mut matcher = InputMatcher::new();
    let down = vec![binds.get_key(BlockLocation::B)];

    let events = matcher.keyboard_input(&binds, &down);
    assert_eq!(events, vec![BlockLocation::B]);

    // Still held: no new event.
    let events = matcher.keyboard_input(&binds, &down);
    assert!(events.is_empty());

    // Released, then pressed again: a new event.
    let events = matcher.keyboard_input(&binds, &Vec::new());
    assert!(events.is_empty());
    let events = matcher.keyboard_input(&binds, &down);
    assert_eq!(events, vec![BlockLocation::B]);
}

#[test]
fn simultaneous_presses_emit_in_lane_order() {
    let binds = KeyBindings::new();
    let mut matcher = InputMatcher::new();
    let down = vec![
        binds.get_key(BlockLocation::D),
        binds.get_key(BlockLocation::A),
        binds.get_key(BlockLocation::C),
    ];
    let events = matcher.keyboard_input(&binds, &down);
    assert_eq!(events, vec![BlockLocation::A, BlockLocation::C, BlockLocation::D]);
}

#[test]
fn rebinding_a_lane_moves_its_presses_to_the_new_key() {
    let mut binds = KeyBindings::new();
    let mut matcher = InputMatcher::new();
    let old_key = binds.get_key(BlockLocation::C);
    let new_key = 120u32;
    binds.set_key(BlockLocation::C, new_key);

    // The old key now produces no event for lane C.
    let events = matcher.keyboard_input(&binds, &vec![old_key]);
    assert!(events.is_empty());

    // The new key does.
    let events = matcher.keyboard_input(&binds, &vec![new_key]);
    assert_eq!(events, vec![BlockLocation::C]);

    // The other lanes kept their keys.
    assert_eq!(binds.get_key(BlockLocation::A), 100);
    assert_eq!(binds.get_key(BlockLocation::B), 102);
    assert_eq!(binds.get_key(BlockLocation::D), 107);
}
