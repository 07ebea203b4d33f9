use std::sync::mpsc::sync_channel;
use simulation_station::p0014::COLLATZ_FUEL;
use simulation_station::p0014::CollatzState;
use simulation_station::p0014::collatz_len;
use simulation_station::p0014::render;
use simulation_station::p0014::solve;

#[test]
fn collatz_lengths_of_known_numbers() {
    assert_eq!(collatz_len(1, COLLATZ_FUEL), Some(1));
    assert_eq!(collatz_len(2, COLLATZ_FUEL), Some(2));
    assert_eq!(collatz_len(3, COLLATZ_FUEL), Some(8));
    assert_eq!(collatz_len(6, COLLATZ_FUEL), Some(9));
    assert_eq!(collatz_len(7, COLLATZ_FUEL), Some(17));
    assert_eq!(collatz_len(27, COLLATZ_FUEL), Some(112));
}

#[test]
fn collatz_len_zero_behaves_like_one() {
    assert_eq!(collatz_len(0, COLLATZ_FUEL), Some(1));
}

#[test]
fn collatz_len_gives_up_when_the_budget_runs_out() {
    assert_eq!(collatz_len(6, 2), None);
    assert_eq!(collatz_len(6, 8), Some(9));
    assert_eq!(collatz_len(1, 0), Some(1));
}

#[test]
fn collatz_len_refuses_a_step_that_would_overflow() {
    assert_eq!(collatz_len(u64::MAX, 10), None);
}

#[test]
fn record_step_tracks_the_record_and_the_current_pair() {
    let mut s = CollatzState::default();
    s.record_step(6, 9);
    assert_eq!((s.current_num, s.current_len), (6, 9));
    assert_eq!((s.best_num, s.best_len), (6, 9));
    s.record_step(7, 17);
    assert_eq!((s.best_num, s.best_len), (7, 17));
    s.record_step(8, 4);
    assert_eq!((s.current_num, s.current_len), (8, 4));
    assert_eq!((s.best_num, s.best_len), (7, 17));
    assert_eq!(s.history, vec![9, 17, 4]);
}

#[test]
fn record_step_slides_the_history_past_its_cap() {
    let mut s = CollatzState::default();
    for i in 1..=401u64 {
        s.record_step(i, i);
    }
    assert_eq!(s.history.len(), 400);
    assert_eq!(s.history[0], 2); // the oldest entry was dropped
    assert_eq!(s.history[399], 401);
    assert_eq!(s.best_len, 401);
}

#[test]
fn clone_copies_every_field() {
    let mut s = CollatzState::default();
    s.record_step(6, 9);
    s.record_step(7, 17);
    let c = s.clone();
    assert_eq!(c.current_num, 7);
    assert_eq!(c.current_len, 17);
    assert_eq!(c.best_num, 7);
    assert_eq!(c.best_len, 17);
    assert_eq!(c.history, vec![9, 17]);
}

#[test]
fn render_draws_a_full_bar_for_a_record_length() {
    let mut s = CollatzState::default();
    s.record_step(27, 525); // reaches the clamp: a full-height bar
    let mut buffer: Vec<u8> = Vec::new();
    render(&s, &mut buffer);
    assert_eq!(buffer.len(), 360_000);
    // Bottom of column 0: height 0, so blue (0, 0, 255).
    let j = 3 * (299 * 400);
    assert_eq!(&buffer[j..j + 3], &[0, 0, 255]);
    // Top of column 0: height 299 wraps to 43, doubled to 86.
    assert_eq!(&buffer[0..3], &[0, 86, 212]);
    // Column 1 has no history entry: black.
    assert_eq!(&buffer[3..6], &[0, 0, 0]);
}

#[test]
fn render_scales_a_short_bar_and_leaves_the_rest_black() {
    let mut s = CollatzState::default();
    s.record_step(3, 100); // bar height floor(100 * 300 / 525) = 57
    let mut buffer: Vec<u8> = Vec::new();
    render(&s, &mut buffer);
    // Highest drawn pixel of column 0: height 56, on row 243.
    let j = 3 * (243 * 400);
    assert_eq!(&buffer[j..j + 3], &[0, 112, 199]);
    // One row above the bar: black.
    let j = 3 * (242 * 400);
    assert_eq!(&buffer[j..j + 3], &[0, 0, 0]);
}

#[test]
fn render_of_the_initial_state_is_black() {
    let s = CollatzState::default();
    let mut buffer: Vec<u8> = vec![7; 12];
    render(&s, &mut buffer);
    assert_eq!(buffer.len(), 360_000);
    assert!(buffer.iter().all(|&b| b == 0));
}

#[test]
fn solve_stops_quietly_once_its_receiver_is_gone() {
    let (tx, rx) = sync_channel::<CollatzState>(0);
    drop(rx);
    // The first send fails, which is the defined shutdown signal.
    solve(tx);
}
