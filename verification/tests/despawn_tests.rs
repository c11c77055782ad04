use music_game::despawn::despawn_music_block;
use music_game::lane::BlockLocation;
use music_game::note::MusicBlock;
use music_game::note::MusicBlockKind;
use music_game::note::NoteStore;
use music_game::score::Scoreboard;

fn note_at(location: BlockLocation, y: i32) -> MusicBlock {
    let mut b = MusicBlock::new(location, MusicBlockKind::Normal);
    b.y = y;
    b
}

#[test]
fn note_exactly_on_the_boundary_stays() {
    let mut store = NoteStore::new();
    let mut sb = Scoreboard::new();
    let h = store.spawn(note_at(BlockLocation::A, -400));
    despawn_music_block(&mut store, &mut sb);
    assert_eq!(store.read(h).unwrap().y, -400);
    assert_eq!(store.live_notes(), 1);
    assert_eq!(sb.miss, 0);
}

#[test]
fn note_one_unit_below_the_boundary_is_a_miss() {
    let mut store = NoteStore::new();
    let mut sb = Scoreboard::new();
    let h = store.spawn(note_at(BlockLocation::A, -401));
    despawn_music_block(&mut store, &mut sb);
    assert!(store.read(h).is_none());
    assert_eq!(store.live_notes(), 0);
    assert_eq!(sb.miss, 1);
}

#[test]
fn an_unpressed_note_crossing_the_boundary_resets_the_combo() {
    let mut store = NoteStore::new();
    let mut sb = Scoreboard::new();
    sb.wonderful();
    sb.perfect();
    assert_eq!(sb.combo, 2);
    store.spawn(note_at(BlockLocation::D, -405));
    despawn_music_block(&mut store, &mut sb);
    assert_eq!(sb.miss, 1);
    assert_eq!(sb.combo, 0);
    assert_eq!(store.live_notes(), 0);
    // The tier counters are untouched.
    assert_eq!(sb.wonderful, 1);
    assert_eq!(sb.perfect, 1);
}

#[test]
fn despawner_takes_every_expired_note_and_only_those() {
    let mut store = NoteStore::new();
    let mut sb = Scoreboard::new();
    let h0 = store.spawn(note_at(BlockLocation::A, -500));
    let h1 = store.spawn(note_at(BlockLocation::B, 250));
    let h2 = store.spawn(note_at(BlockLocation::C, -401));
    let h3 = store.spawn(note_at(BlockLocation::D, -400));
    despawn_music_block(&mut store, &mut sb);
    assert!(store.read(h0).is_none());
    assert!(store.read(h1).is_some());
    assert!(store.read(h2).is_none());
    assert!(store.read(h3).is_some());
    assert_eq!(sb.miss, 2);
    assert_eq!(sb.combo, 0);
}
