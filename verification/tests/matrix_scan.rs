use rmk::debounce::{DebounceCounter, DebounceState, Debouncer, DEBOUNCE_THRESHOLD, HOLD_THRESHOLD};
use rmk::matrix::{KeyState, Matrix, PinOutcome, ScanStep, SETTLE_DELAY_US};

/// A frame of a 2x2 matrix in which only the switch at output 0, input 0 is
/// at `level`.
fn frame(level: bool) -> [[bool; 2]; 2] {
    [[level, false], [false, false]]
}

#[test]
fn new_matrix_has_released_keys() {
    let mut matrix = Matrix::<3, 2, false>::new();
    for row in 0..2 {
        for col in 0..3 {
            let key = matrix.get_key_state(row, col);
            assert_eq!(
                key,
                KeyState { pressed: false, changed: false, held: false, hold_start: None }
            );
        }
    }
    assert_eq!(KeyState::new(), KeyState::default());
}

#[test]
fn default_thresholds_are_used_by_new() {
    assert_eq!(DEBOUNCE_THRESHOLD, 10);
    assert_eq!(HOLD_THRESHOLD, 300);
    let mut matrix = Matrix::<1, 1, false>::new();
    for _ in 0..9 {
        assert_eq!(matrix.scan_key(0, 0, true), DebounceState::NoChange);
        assert!(!matrix.get_key_state(0, 0).pressed);
    }
    assert_eq!(matrix.scan_key(0, 0, true), DebounceState::Debounced);
    assert!(matrix.get_key_state(0, 0).pressed);
    for _ in 10..299 {
        assert_eq!(matrix.scan_key(0, 0, true), DebounceState::NoChange);
    }
    assert_eq!(matrix.scan_key(0, 0, true), DebounceState::HeldHigh);
    assert!(matrix.get_key_state(0, 0).held);
}

#[test]
fn short_bounce_burst_raises_no_edge() {
    let mut matrix = Matrix::<2, 2, false>::with_thresholds(5, 50);
    // Four samples of chatter, one fewer than the threshold, then quiet.
    for level in [true, true, false, true, false, false, false, false] {
        matrix.scan(&frame(level));
        let key = matrix.get_key_state(0, 0);
        assert!(!key.changed);
        assert!(!key.pressed);
    }
}

#[test]
fn interrupted_level_starts_the_count_again() {
    let mut matrix = Matrix::<2, 2, false>::with_thresholds(3, 50);
    for level in [true, true, false, true, true] {
        matrix.scan(&frame(level));
        assert!(!matrix.get_key_state(0, 0).changed);
    }
    matrix.scan(&frame(true));
    let key = matrix.get_key_state(0, 0);
    assert!(key.changed);
    assert!(key.pressed);
}

#[test]
fn clean_press_raises_exactly_one_edge() {
    let mut matrix = Matrix::<2, 2, false>::with_thresholds(4, 50);
    let mut edges = 0;
    for cycle in 1..=12 {
        matrix.scan(&frame(true));
        let key = matrix.get_key_state(0, 0);
        if key.changed {
            edges += 1;
            assert_eq!(cycle, 4);
        }
        assert_eq!(key.pressed, cycle >= 4);
    }
    assert_eq!(edges, 1);
}

#[test]
fn clean_release_raises_exactly_one_edge() {
    let mut matrix = Matrix::<2, 2, false>::with_thresholds(2, 50);
    matrix.scan(&frame(true));
    matrix.scan(&frame(true));
    assert!(matrix.get_key_state(0, 0).pressed);
    let mut edges = 0;
    for _ in 0..6 {
        matrix.scan(&frame(false));
        if matrix.get_key_state(0, 0).changed {
            edges += 1;
        }
    }
    assert_eq!(edges, 1);
    assert!(!matrix.get_key_state(0, 0).pressed);
}

#[test]
fn changed_lasts_one_scan_cycle() {
    let mut matrix = Matrix::<2, 2, false>::with_thresholds(2, 50);
    matrix.scan(&frame(true));
    matrix.scan(&frame(true));
    assert!(matrix.get_key_state(0, 0).changed);
    matrix.scan(&frame(true));
    assert!(!matrix.get_key_state(0, 0).changed);
    // The cycle after an edge raises none, whatever the level.
    let mut other = Matrix::<2, 2, false>::with_thresholds(2, 50);
    other.scan(&frame(true));
    other.scan(&frame(true));
    other.scan(&frame(false));
    assert!(!other.get_key_state(0, 0).changed);
    assert!(other.get_key_state(0, 0).pressed);
}

#[test]
fn threshold_of_one_confirms_every_flip() {
    let mut matrix = Matrix::<1, 1, false>::with_thresholds(1, 50);
    assert_eq!(matrix.scan_key(0, 0, true), DebounceState::Debounced);
    assert_eq!(matrix.scan_key(0, 0, false), DebounceState::Debounced);
    assert_eq!(matrix.scan_key(0, 0, false), DebounceState::NoChange);
    let mut zero = Matrix::<1, 1, false>::with_thresholds(0, 50);
    assert_eq!(zero.scan_key(0, 0, false), DebounceState::NoChange);
    assert_eq!(zero.scan_key(0, 0, true), DebounceState::Debounced);
}

#[test]
fn hold_begins_at_the_threshold_and_lasts_until_release() {
    let mut matrix = Matrix::<2, 2, false>::with_thresholds(2, 5);
    for cycle in 1..=10 {
        matrix.scan(&frame(true));
        let key = matrix.get_key_state(0, 0);
        assert_eq!(key.changed, cycle == 2);
        assert_eq!(key.held, cycle >= 5);
        assert!(!(key.held && key.changed));
    }
    // One low sample is not a release: the hold goes on.
    matrix.scan(&frame(false));
    let key = matrix.get_key_state(0, 0);
    assert!(key.held && key.pressed && !key.changed);
    matrix.scan(&frame(true));
    assert!(matrix.get_key_state(0, 0).held);
    // Two low samples in a row are the release.
    matrix.scan(&frame(false));
    assert!(matrix.get_key_state(0, 0).held);
    matrix.scan(&frame(false));
    let key = matrix.get_key_state(0, 0);
    assert_eq!(
        key,
        KeyState { pressed: false, changed: true, held: false, hold_start: None }
    );
    matrix.scan(&frame(false));
    let key = matrix.get_key_state(0, 0);
    assert!(!key.held && !key.changed && !key.pressed);
}

#[test]
fn bouncing_key_on_a_2x2_matrix() {
    let mut matrix = Matrix::<2, 2, false>::with_thresholds(4, 5);
    // Three bounces, each shorter than the threshold.
    let bounce = [true, false, true, true, false, true, false];
    for level in bounce {
        let state = matrix.scan_key(0, 0, level);
        assert_eq!(state, DebounceState::NoChange);
        for in_idx in 0..2 {
            for out_idx in 0..2 {
                if (out_idx, in_idx) != (0, 0) {
                    assert_eq!(matrix.scan_key(out_idx, in_idx, false), DebounceState::NoChange);
                }
            }
        }
        assert!(!matrix.get_key_state(0, 0).changed);
        assert!(!matrix.get_key_state(0, 0).pressed);
    }
    // The key settles pressed: one edge in the fourth cycle of the level.
    let mut states = Vec::new();
    for _ in 0..4 {
        states.push(matrix.scan_key(0, 0, true));
    }
    assert_eq!(
        states,
        vec![
            DebounceState::NoChange,
            DebounceState::NoChange,
            DebounceState::NoChange,
            DebounceState::Debounced
        ]
    );
    let key = matrix.get_key_state(0, 0);
    assert!(key.pressed && key.changed && !key.held);
    // From then on the key is reported as held, cycle after cycle.
    for _ in 0..20 {
        assert_eq!(matrix.scan_key(0, 0, true), DebounceState::HeldHigh);
        let key = matrix.get_key_state(0, 0);
        assert!(key.pressed && key.held && !key.changed);
    }
    // The release ends it.
    for _ in 0..3 {
        assert_eq!(matrix.scan_key(0, 0, false), DebounceState::NoChange);
        assert!(matrix.get_key_state(0, 0).held);
    }
    assert_eq!(matrix.scan_key(0, 0, false), DebounceState::Debounced);
    let key = matrix.get_key_state(0, 0);
    assert!(!key.pressed && key.changed && !key.held);
    // No other key has moved.
    for (row, col) in [(0, 1), (1, 0), (1, 1)] {
        assert_eq!(matrix.get_key_state(row, col), KeyState::new());
    }
}

#[test]
fn scan_takes_every_switch_through_one_cycle() {
    let mut matrix = Matrix::<3, 2, false>::with_thresholds(1, 2);
    let levels = [[true, false, true], [false, true, false]];
    matrix.scan(&levels);
    for out_idx in 0..2 {
        for in_idx in 0..3 {
            let key = matrix.get_key_state(out_idx, in_idx);
            assert_eq!(key.pressed, levels[out_idx][in_idx]);
            assert_eq!(key.changed, levels[out_idx][in_idx]);
        }
    }
    matrix.scan(&[[true, false, true], [true, true, true]]);
    assert!(matrix.get_key_state(1, 0).changed);
    assert!(matrix.get_key_state(1, 1).held);
    assert!(matrix.get_key_state(1, 2).changed);
    assert!(!matrix.get_key_state(0, 0).changed);
    assert!(matrix.get_key_state(0, 0).held);
    assert!(!matrix.get_key_state(0, 1).pressed);
}

/// Runs a pass step by step against `levels`, with a pin fault at the step
/// numbered `fault_at` if there is one, and gives the steps it was asked for.
fn run_pass(
    matrix: &mut Matrix<2, 2, false>,
    levels: [[bool; 2]; 2],
    fault_at: Option<usize>,
) -> Vec<ScanStep> {
    let mut steps = Vec::new();
    let mut step = matrix.begin_scan();
    loop {
        steps.push(step);
        let outcome = match step {
            ScanStep::Done | ScanStep::Failed => return steps,
            _ if fault_at == Some(steps.len() - 1) => PinOutcome::Fault,
            ScanStep::ReadInput(out_idx, in_idx) => PinOutcome::Level(levels[out_idx][in_idx]),
            _ => PinOutcome::Completed,
        };
        step = matrix.advance(step, outcome);
    }
}

#[test]
fn pass_drives_settles_reads_and_releases_line_by_line() {
    assert_eq!(SETTLE_DELAY_US, 1);
    let levels = [[true, false], [false, true]];
    let mut stepped = Matrix::<2, 2, false>::with_thresholds(1, 5);
    let steps = run_pass(&mut stepped, levels, None);
    assert_eq!(
        steps,
        vec![
            ScanStep::DriveHigh(0),
            ScanStep::Settle(0),
            ScanStep::ReadInput(0, 0),
            ScanStep::ReadInput(0, 1),
            ScanStep::DriveLow(0),
            ScanStep::DriveHigh(1),
            ScanStep::Settle(1),
            ScanStep::ReadInput(1, 0),
            ScanStep::ReadInput(1, 1),
            ScanStep::DriveLow(1),
            ScanStep::Done,
        ]
    );
    let mut scanned = Matrix::<2, 2, false>::with_thresholds(1, 5);
    scanned.scan(&levels);
    for row in 0..2 {
        for col in 0..2 {
            assert_eq!(stepped.get_key_state(row, col), scanned.get_key_state(row, col));
            assert_eq!(stepped.get_key_state(row, col).pressed, levels[row][col]);
        }
    }
}

#[test]
fn pin_fault_gives_the_pass_up() {
    let levels = [[true, true], [true, true]];
    for fault_at in 0..10 {
        let mut matrix = Matrix::<2, 2, false>::with_thresholds(1, 5);
        let steps = run_pass(&mut matrix, levels, Some(fault_at));
        assert_eq!(steps.len(), fault_at + 2);
        assert_eq!(steps[fault_at + 1], ScanStep::Failed);
        // Switches read before the fault were sampled, the others were not.
        let sampled = steps[..=fault_at]
            .iter()
            .filter(|step| matches!(step, ScanStep::ReadInput(_, _)))
            .count();
        let reads_done = if matches!(steps[fault_at], ScanStep::ReadInput(_, _)) {
            sampled - 1
        } else {
            sampled
        };
        let mut pressed = 0;
        for row in 0..2 {
            for col in 0..2 {
                if matrix.get_key_state(row, col).pressed {
                    pressed += 1;
                }
            }
        }
        assert_eq!(pressed, reads_done);
    }
}

#[test]
fn pass_rejects_what_does_not_answer_the_step() {
    let mut matrix = Matrix::<2, 2, false>::with_thresholds(1, 5);
    assert_eq!(matrix.advance(ScanStep::DriveHigh(0), PinOutcome::Level(true)), ScanStep::Failed);
    assert_eq!(matrix.advance(ScanStep::Settle(1), PinOutcome::Level(false)), ScanStep::Failed);
    assert_eq!(matrix.advance(ScanStep::ReadInput(0, 0), PinOutcome::Completed), ScanStep::Failed);
    assert_eq!(matrix.advance(ScanStep::DriveLow(0), PinOutcome::Level(true)), ScanStep::Failed);
    // Lines the matrix does not have.
    assert_eq!(matrix.advance(ScanStep::DriveHigh(2), PinOutcome::Completed), ScanStep::Failed);
    assert_eq!(matrix.advance(ScanStep::Settle(2), PinOutcome::Completed), ScanStep::Failed);
    assert_eq!(matrix.advance(ScanStep::ReadInput(0, 2), PinOutcome::Level(true)), ScanStep::Failed);
    assert_eq!(matrix.advance(ScanStep::ReadInput(2, 0), PinOutcome::Level(true)), ScanStep::Failed);
    assert_eq!(matrix.advance(ScanStep::DriveLow(7), PinOutcome::Completed), ScanStep::Failed);
    // A pass that is over stays over.
    for outcome in [PinOutcome::Completed, PinOutcome::Level(true), PinOutcome::Fault] {
        assert_eq!(matrix.advance(ScanStep::Done, outcome), ScanStep::Done);
        assert_eq!(matrix.advance(ScanStep::Failed, outcome), ScanStep::Failed);
    }
    for row in 0..2 {
        for col in 0..2 {
            assert_eq!(matrix.get_key_state(row, col), KeyState::new());
        }
    }
}

#[test]
fn pass_over_a_matrix_without_lines() {
    let mut no_outputs = Matrix::<2, 0, false>::new();
    assert_eq!(no_outputs.begin_scan(), ScanStep::Done);
    no_outputs.scan(&[]);
    let mut no_inputs = Matrix::<0, 2, false>::new();
    let mut step = no_inputs.begin_scan();
    let mut steps = vec![step];
    while step != ScanStep::Done {
        step = no_inputs.advance(step, PinOutcome::Completed);
        steps.push(step);
    }
    assert_eq!(
        steps,
        vec![
            ScanStep::DriveHigh(0),
            ScanStep::Settle(0),
            ScanStep::DriveLow(0),
            ScanStep::DriveHigh(1),
            ScanStep::Settle(1),
            ScanStep::DriveLow(1),
            ScanStep::Done,
        ]
    );
}

#[test]
fn wiring_decides_which_axis_is_the_input() {
    // Three input lines, two output lines.
    let levels = [[false, false, true], [false, false, false]];
    // Inputs are the columns: the pressed switch is the key at row 0, column 2.
    let mut row2col = Matrix::<3, 2, false>::with_thresholds(1, 10);
    row2col.scan(&levels);
    assert!(row2col.get_key_state(0, 2).pressed);
    assert!(!row2col.get_key_state(1, 2).pressed);
    // Inputs are the rows: the same switch is the key at row 2, column 0.
    let mut col2row = Matrix::<3, 2, true>::with_thresholds(1, 10);
    col2row.scan(&levels);
    assert!(col2row.get_key_state(2, 0).pressed);
    assert!(!col2row.get_key_state(2, 1).pressed);
    col2row.key_pressed_at(2, 0, 77);
    assert_eq!(col2row.get_key_state(2, 0).hold_start, Some(77));
    assert_eq!(col2row.get_key_state(2, 1).hold_start, None);
    row2col.key_pressed_at(0, 2, 78);
    assert_eq!(row2col.get_key_state(0, 2).hold_start, Some(78));
    assert_eq!(row2col.get_key_state(0, 1).hold_start, None);
}

#[test]
fn hold_timer_measures_from_its_start() {
    let mut key = KeyState::new();
    assert_eq!(key.elapsed_at(500), None);
    assert_eq!(key.elapsed(), None);
    key.start_timer_at(100);
    assert_eq!(key.hold_start, Some(100));
    assert_eq!(key.elapsed_at(150), Some(50));
    assert_eq!(key.elapsed_at(100), Some(0));
    assert_eq!(key.elapsed_at(99), None);
    assert_eq!(key.elapsed_at(u64::MAX), Some(u64::MAX - 100));
    key.clear_timer();
    assert_eq!(key.hold_start, None);
    assert_eq!(key.elapsed_at(150), None);
    key.toggle_pressed();
    assert!(key.pressed);
    key.toggle_pressed();
    assert!(!key.pressed);
}

#[test]
fn hold_timer_reads_the_clock() {
    let mut key = KeyState::new();
    key.start_timer();
    let start = key.hold_start.expect("the timer runs");
    let elapsed = key.elapsed().expect("the clock does not run backwards");
    assert_eq!(key.elapsed_at(start + elapsed), Some(elapsed));
    let mut matrix = Matrix::<2, 2, false>::new();
    matrix.key_pressed(1, 0);
    assert!(matrix.get_key_state(1, 0).hold_start.is_some());
    assert!(matrix.get_key_state(0, 1).hold_start.is_none());
    assert!(matrix.get_key_state(1, 0).elapsed().is_some());
}

#[test]
fn release_stops_the_hold_timer() {
    let mut matrix = Matrix::<1, 1, false>::with_thresholds(2, 10);
    matrix.scan_key(0, 0, true);
    matrix.scan_key(0, 0, true);
    matrix.key_pressed_at(0, 0, 42);
    matrix.scan_key(0, 0, true);
    assert_eq!(matrix.get_key_state(0, 0).hold_start, Some(42));
    matrix.scan_key(0, 0, false);
    assert_eq!(matrix.get_key_state(0, 0).hold_start, Some(42));
    matrix.scan_key(0, 0, false);
    assert_eq!(matrix.get_key_state(0, 0).hold_start, None);
}

#[test]
fn key_state_follows_the_verdict() {
    let mut key = KeyState { pressed: false, changed: false, held: true, hold_start: Some(5) };
    key.update(DebounceState::Debounced);
    assert_eq!(key, KeyState { pressed: true, changed: true, held: false, hold_start: Some(5) });
    key.update(DebounceState::HeldHigh);
    assert_eq!(key, KeyState { pressed: true, changed: false, held: true, hold_start: Some(5) });
    key.changed = true;
    key.update(DebounceState::NoChange);
    assert_eq!(key, KeyState { pressed: true, changed: false, held: true, hold_start: Some(5) });
    key.update(DebounceState::Debounced);
    assert_eq!(key, KeyState { pressed: false, changed: true, held: false, hold_start: None });
}

#[test]
fn counter_counts_runs_and_stops_at_the_top() {
    let mut counter = DebounceCounter::new();
    assert_eq!(counter, DebounceCounter { level: false, run: 0 });
    counter.record(false);
    assert_eq!(counter, DebounceCounter { level: false, run: 1 });
    counter.record(true);
    assert_eq!(counter, DebounceCounter { level: true, run: 1 });
    counter.record(true);
    assert_eq!(counter, DebounceCounter { level: true, run: 2 });
    let mut full = DebounceCounter { level: true, run: u32::MAX - 1 };
    full.record(true);
    assert_eq!(full.run, u32::MAX);
    full.record(true);
    assert_eq!(full.run, u32::MAX);
    full.record(false);
    assert_eq!(full, DebounceCounter { level: false, run: 1 });
}

#[test]
fn debouncer_keeps_switches_apart() {
    let mut debouncer = Debouncer::<2, 2>::with_thresholds(2, 3);
    let released = KeyState::new();
    let pressed = KeyState { pressed: true, changed: false, held: false, hold_start: None };
    assert_eq!(
        debouncer.detect_change_with_debounce(0, 1, true, &released),
        DebounceState::NoChange
    );
    // Another switch starts its own count.
    assert_eq!(
        debouncer.detect_change_with_debounce(1, 0, true, &released),
        DebounceState::NoChange
    );
    assert_eq!(
        debouncer.detect_change_with_debounce(0, 1, true, &released),
        DebounceState::Debounced
    );
    assert_eq!(
        debouncer.detect_change_with_debounce(0, 1, true, &pressed),
        DebounceState::HeldHigh
    );
    assert_eq!(
        debouncer.detect_change_with_debounce(1, 0, true, &released),
        DebounceState::Debounced
    );
    // A released level is never a hold, however long it lasts.
    let mut idle = Debouncer::<1, 1>::new();
    for _ in 0..400 {
        assert_eq!(
            idle.detect_change_with_debounce(0, 0, false, &released),
            DebounceState::NoChange
        );
    }
}
