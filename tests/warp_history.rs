use noisy_bevy::warp::{WarpHistory, MAX_WARP_ITERATIONS};

fn run(n: i32) -> WarpHistory<i32> {
    let mut h = WarpHistory::new(0);
    for i in 1..=n {
        h.record(i);
    }
    h
}

#[test]
fn history_has_four_slots() {
    assert_eq!(MAX_WARP_ITERATIONS, 4);
    assert_eq!(run(0).positions.len(), 4);
}

#[test]
fn empty_history_holds_starting_value() {
    let h = WarpHistory::new(7);
    assert_eq!(h.positions, [7, 7, 7, 7]);
    assert_eq!(h.latest(), 7);
    assert_eq!(h.sample_position(), 7);
}

#[test]
fn short_history_leaves_later_slots_empty() {
    let h = run(2);
    assert_eq!(h.positions, [2, 1, 0, 0]);
    assert_eq!(h.latest(), 2);
    assert_eq!(h.sample_position(), 0);
}

#[test]
fn full_history_is_most_recent_first() {
    let h = run(4);
    assert_eq!(h.positions, [4, 3, 2, 1]);
    assert_eq!(h.sample_position(), 1);
}

#[test]
fn long_history_keeps_last_four() {
    let h = run(6);
    assert_eq!(h.positions, [6, 5, 4, 3]);
    assert_eq!(h.latest(), 6);
    assert_eq!(h.sample_position(), 3);
}

#[test]
fn recording_twice_is_deterministic() {
    assert_eq!(run(5).positions, run(5).positions);
}
