use music_game::lane::BlockLocation;
use music_game::note::MusicBlockKind;
use music_game::note::NoteStore;
use music_game::spawn::create_music_block;
use music_game::spawn::lane_of_index;
use music_game::spawn::rand_block;
use music_game::spawn::SpawnTimer;

#[test]
fn lane_of_index_maps_all_four_indices() {
    assert_eq!(lane_of_index(0), BlockLocation::A);
    assert_eq!(lane_of_index(1), BlockLocation::B);
    assert_eq!(lane_of_index(2), BlockLocation::C);
    assert_eq!(lane_of_index(3), BlockLocation::D);
}

#[test]
fn random_notes_start_on_the_spawn_line() {
    for _ in 0..50 {
        let b = rand_block();
        assert_eq!(b.y, 300);
        assert_eq!(b.velocity, -5);
        assert_eq!(b.kind, MusicBlockKind::Normal);
    }
}

#[test]
fn spawner_fills_the_store_one_note_per_tick() {
    let mut store = NoteStore::new();
    let h0 = create_music_block(&mut store);
    let h1 = create_music_block(&mut store);
    assert_eq!((h0, h1), (0, 1));
    assert_eq!(store.live_notes(), 2);
    assert_eq!(store.read(h0).unwrap().y, 300);
    assert_eq!(store.read(h1).unwrap().y, 300);
}

#[test]
fn timer_counts_down_and_fires_on_zero() {
    let mut timer = SpawnTimer::new();
    assert_eq!(timer.remaining_ms, 500);
    let fired = timer.tick(499);
    assert!(!fired);
    assert_eq!(timer.remaining_ms, 1);
    let fired = timer.tick(1);
    assert!(fired);
}

#[test]
fn fired_timer_draws_an_interval_inside_the_range() {
    for _ in 0..100 {
        let mut timer = SpawnTimer::new();
        let fired = timer.tick(10_000);
        assert!(fired);
        assert!(timer.remaining_ms >= 300);
        assert!(timer.remaining_ms <= 2000);
    }
}

#[test]
fn rerandomized_interval_stays_inside_the_range() {
    let mut timer = SpawnTimer::new();
    for _ in 0..100 {
        timer.fixed_time_change();
        assert!(timer.remaining_ms >= 300);
        assert!(timer.remaining_ms <= 2000);
    }
}
