use music_game::lane::BlockLocation;
use music_game::score::Scoreboard;
use music_game::sim::Simulation;

#[test]
fn lanes_have_distinct_positions_and_a_shared_target_line() {
    let lanes =
        [BlockLocation::A, BlockLocation::B, BlockLocation::C, BlockLocation::D];
    let mut xs = Vec::new();
    for lane in lanes {
        let (x, y) = lane.timing_position();
        assert_eq!(y, -220);
        assert!(!xs.contains(&x));
        xs.push(x);
        let (mx, my) = lane.music_position();
        assert_eq!(mx, x);
        assert_eq!(my, 300);
    }
    assert_eq!(xs, vec![-420, -140, 140, 420]);
}

#[test]
fn a_fresh_run_starts_empty_and_at_zero() {
    let sim = Simulation::new();
    assert_eq!(sim.store.live_notes(), 0);
    assert_eq!(sim.score_board, Scoreboard::new());
    assert_eq!(sim.timer.remaining_ms, 500);
}

/// Run `frames` frames with no time passing and no key down, so the one
/// spawned note just falls.
fn idle_frames(sim: &mut Simulation, frames: usize) {
    for _ in 0..frames {
        sim.step_frame(0, &Vec::new());
    }
}

#[test]
fn a_press_on_the_target_line_is_wonderful() {
    let mut sim = Simulation::new();
    // The first frame consumes the timer's initial 500 ms: one note spawns
    // and falls to 295. No further frame lets time pass, so no second note.
    let events = sim.step_frame(500, &Vec::new());
    assert!(events.is_empty());
    assert_eq!(sim.store.live_notes(), 1);
    let note = sim.store.read(0).unwrap();
    assert_eq!(note.y, 295);

    // After frame k the note sits at 300 - 5k; frame 104 moves it onto the
    // target line at -220, so a press in that frame is judged there.
    idle_frames(&mut sim, 102);
    assert_eq!(sim.store.read(0).unwrap().y, -215);

    let key = sim.bindings.get_key(note.location);
    sim.step_frame(0, &vec![key]);
    assert_eq!(sim.score_board.wonderful, 1);
    assert_eq!(sim.score_board.combo, 1);
    assert_eq!(sim.store.live_notes(), 0);
}

#[test]
fn a_press_five_units_early_is_perfect() {
    let mut sim = Simulation::new();
    sim.step_frame(500, &Vec::new());
    let note = sim.store.read(0).unwrap();
    // Frame 103 moves the note to -215, inside the Perfect window.
    idle_frames(&mut sim, 101);
    assert_eq!(sim.store.read(0).unwrap().y, -210);

    let key = sim.bindings.get_key(note.location);
    sim.step_frame(0, &vec![key]);
    assert_eq!(sim.score_board.perfect, 1);
    assert_eq!(sim.score_board.combo, 1);
    assert_eq!(sim.store.live_notes(), 0);
}

#[test]
fn an_unpressed_note_expires_into_a_miss() {
    let mut sim = Simulation::new();
    sim.step_frame(500, &Vec::new());
    // Frame 140 puts the note exactly on the despawn boundary at -400:
    // still alive. Frame 141 moves it below: removed and counted.
    idle_frames(&mut sim, 139);
    assert_eq!(sim.store.read(0).unwrap().y, -400);
    assert_eq!(sim.store.live_notes(), 1);
    assert_eq!(sim.score_board.miss, 0);

    sim.step_frame(0, &Vec::new());
    assert_eq!(sim.store.live_notes(), 0);
    assert_eq!(sim.score_board.miss, 1);
    assert_eq!(sim.score_board.combo, 0);
}

#[test]
fn rebinding_mid_run_redirects_a_lane_to_the_new_key() {
    let mut sim = Simulation::new();
    let old_key = sim.bindings.get_key(BlockLocation::C);
    sim.rebind_key(BlockLocation::C, 120);

    // A press of the old key emits no event for lane C.
    let events = sim.step_frame(0, &vec![old_key]);
    assert!(events.is_empty());

    // A press of the new key does.
    let events = sim.step_frame(0, &vec![120u32]);
    assert_eq!(events, vec![BlockLocation::C]);
}
