use simulation_station::ActiveSim;
use simulation_station::App;
use simulation_station::scheduler::Scheduler;
use simulation_station::scheduler::STEP_CAP;
use simulation_station::scheduler::step_micros;
use simulation_station::simple_grid::PixelFillSim;

fn fill_app() -> App {
    let mut app = App::new();
    app.load_sim(ActiveSim::Fill(PixelFillSim::new()));
    app
}

fn filled_cells(app: &App) -> usize {
    match &app.current_sim {
        ActiveSim::Fill(f) => f.filled(),
        _ => panic!("expected the fill simulation"),
    }
}

#[test]
fn step_micros_values() {
    assert_eq!(step_micros(10_000), 100_000); // 10 Hz
    assert_eq!(step_micros(60_000), 16_666); // 60 Hz
    assert_eq!(step_micros(500), 2_000_000); // 0.5 Hz
    assert_eq!(step_micros(1_000_000_000), 1);
}

#[test]
fn pass_drains_whole_steps_and_keeps_remainder() {
    let mut s = Scheduler::new();
    let n = s.pass(25_000, 10_000);
    assert_eq!(n, 2);
    assert_eq!(s.accumulator(), 5_000);
    // The remainder carries into the next pass.
    let n = s.pass(5_500, 10_000);
    assert_eq!(n, 1);
    assert_eq!(s.accumulator(), 500);
}

#[test]
fn pass_leftover_is_smaller_than_one_step() {
    let mut s = Scheduler::new();
    let steps: [u64; 5] = [16_667, 40_000, 99_999, 100_001, 7];
    for e in steps {
        let n = s.pass(e, 10_000);
        if n < STEP_CAP {
            assert!(s.accumulator() < 10_000);
        }
    }
}

#[test]
fn pass_hits_the_cap_and_carries_the_debt() {
    let mut s = Scheduler::new();
    // 60 s of debt at a 10 ms step wants 6000 updates; the cap stops at 5000.
    let n = s.pass(60_000_000, 10_000);
    assert_eq!(n, STEP_CAP);
    assert_eq!(s.accumulator(), 10_000_000);
    // The carried debt drains on the next pass.
    let n = s.pass(0, 10_000);
    assert_eq!(n, 1_000);
    assert_eq!(s.accumulator(), 0);
}

#[test]
fn rate_ten_hz_sixty_frames_gives_ten_updates() {
    // Rate 10 Hz, frame interval just over 1/60 s, one second of frames.
    let mut app = fill_app();
    app.set_rate(10_000);
    let mut total: u64 = 0;
    for frame in 1..=60u64 {
        let n = app.frame(16_667);
        assert!(n <= 1);
        if frame < 6 {
            assert_eq!(n, 0);
        }
        if frame == 6 {
            assert_eq!(n, 1);
        }
        total += n;
    }
    assert_eq!(total, 10);
    assert_eq!(filled_cells(&app), 10);
}

#[test]
fn paused_frames_issue_nothing_and_freeze_the_accumulator() {
    let mut app = fill_app();
    app.set_rate(100_000); // 100 Hz
    app.set_paused(true);
    for _ in 0..20 {
        let n = app.frame(250_000);
        assert_eq!(n, 0);
    }
    assert_eq!(app.scheduler.accumulator(), 0);
    assert_eq!(filled_cells(&app), 0);
    assert!(app.is_paused);
}

#[test]
fn resume_after_pause_catches_up_at_most_to_the_cap() {
    let mut app = fill_app();
    app.set_rate(100_000); // 100 Hz, 10 ms step
    app.set_paused(true);
    let n = app.frame(5_000_000);
    assert_eq!(n, 0);
    app.set_paused(false);
    // Five stalled seconds arrive in one frame: 500 updates in one pass.
    let n = app.frame(5_000_000);
    assert_eq!(n, 500);
    assert_eq!(filled_cells(&app), 500);
    // A stall beyond the cap is clipped to the cap in a single pass.
    let n = app.frame(60_000_000);
    assert_eq!(n, STEP_CAP);
    assert_eq!(filled_cells(&app), 500 + STEP_CAP as usize);
    assert_eq!(app.scheduler.accumulator(), 10_000_000);
}

#[test]
fn changing_the_rate_keeps_the_accumulated_debt() {
    let mut app = fill_app();
    app.set_rate(10_000);
    app.frame(50_000); // below one 100 ms step: nothing issued
    assert_eq!(app.scheduler.accumulator(), 50_000);
    app.set_rate(1_000_000); // 1 kHz from the next pass on
    assert_eq!(app.scheduler.accumulator(), 50_000);
    let n = app.frame(0);
    assert_eq!(n, 50); // the old debt drains at the new 1 ms step
}

#[test]
fn load_sim_adopts_the_default_rate() {
    let mut app = App::new();
    assert_eq!(app.updates_per_second, 60_000);
    app.load_sim(ActiveSim::Fill(PixelFillSim::new()));
    assert_eq!(app.updates_per_second, 60_000); // conservative default
    let (sim, _tx) = simulation_station::collatz_sim();
    app.load_sim(sim);
    assert_eq!(app.updates_per_second, 10_000_000); // 10 kHz
    assert_eq!(app.current_sim.name(), "Problem 14: Collatz");
}

#[test]
fn app_starts_idle_and_renders_black() {
    let app = App::new();
    assert_eq!(app.current_sim.name(), "None");
    assert!(!app.is_paused);
    let mut buffer: Vec<u8> = Vec::new();
    app.render_into(&mut buffer);
    assert_eq!(buffer.len(), 360_000);
    assert!(buffer.iter().all(|&b| b == 0));
}
