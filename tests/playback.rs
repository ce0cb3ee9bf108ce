use mouse_recorder::action::{Action, ActionKind, InputEvent, Synthetic};
use mouse_recorder::playback::{click_n_times, wait_before, Player, BURST_HOLD_MS, CLICK_HOLD_MS};
use mouse_recorder::recorder::Recorder;

type Pos = (f64, f64);

fn mv(x: f64, offset_ms: u64) -> Action<Pos> {
    Action { pos: (x, 0.0), offset_ms, kind: ActionKind::Move }
}

fn first_pause(step: &[Synthetic<Pos>]) -> u64 {
    match step[0] {
        Synthetic::Pause(ms) => ms,
        _ => panic!("a step starts with a pause"),
    }
}

#[test]
fn wait_before_subtracts_gap_and_speed() {
    assert_eq!(wait_before(250, 100, 50), 100);
    assert_eq!(wait_before(100, 0, 50), 50);
    assert_eq!(wait_before(0, 0, 50), 0);
    assert_eq!(wait_before(100, 120, 0), 0);
    assert_eq!(wait_before(300, 100, 500), 0);
    assert_eq!(wait_before(u64::MAX, 0, 0), u64::MAX);
}

#[test]
fn speed_scenario_sleeps() {
    let mut p = Player::new(vec![mv(1.0, 0), mv(2.0, 100), mv(3.0, 250)], 1, 50);
    let mut sleeps = Vec::new();
    while let Some(step) = p.next(true) {
        sleeps.push(first_pause(&step));
    }
    assert_eq!(sleeps, vec![0, 50, 100]);
    assert!(p.is_finished());
}

#[test]
fn move_step_is_pause_then_move() {
    let mut p = Player::new(vec![mv(4.0, 30)], 1, 0);
    assert_eq!(p.next(true), Some(vec![Synthetic::Pause(30), Synthetic::MoveTo((4.0, 0.0))]));
    assert_eq!(p.next(true), None);
}

#[test]
fn click_step_moves_presses_holds_and_releases() {
    let click = Action { pos: (5.0, 6.0), offset_ms: 0, kind: ActionKind::Click };
    let mut p = Player::new(vec![click], 1, 0);
    assert_eq!(
        p.next(true),
        Some(vec![
            Synthetic::Pause(0),
            Synthetic::MoveTo((5.0, 6.0)),
            Synthetic::Press,
            Synthetic::Pause(CLICK_HOLD_MS),
            Synthetic::Release,
        ])
    );
    assert_eq!(CLICK_HOLD_MS, 50);
}

#[test]
fn repeats_restart_timing_each_pass() {
    let mut p = Player::new(vec![mv(1.0, 20), mv(2.0, 70)], 2, 0);
    let mut sleeps = Vec::new();
    while let Some(step) = p.next(true) {
        sleeps.push(first_pause(&step));
    }
    assert_eq!(sleeps, vec![20, 50, 20, 50]);
}

#[test]
fn zero_repeats_play_nothing() {
    let mut p = Player::new(vec![mv(1.0, 0)], 0, 0);
    assert!(p.is_finished());
    assert_eq!(p.next(true), None);
}

#[test]
fn cancellation_stops_before_next_action() {
    let mut p = Player::new(vec![mv(1.0, 0), mv(2.0, 10), mv(3.0, 20)], 3, 0);
    assert!(p.next(true).is_some());
    assert!(p.next(true).is_some());
    assert_eq!(p.next(false), None);
    assert!(p.is_finished());
    assert_eq!(p.next(true), None);
    assert_eq!(p.next(true), None);
}

#[test]
fn playback_of_a_recording_follows_the_log() {
    let mut r = Recorder::new((0.0, 0.0));
    r.start_recording();
    r.record_event(InputEvent::MouseMove((9.0, 9.0)), 40);
    r.record_event(InputEvent::LeftPress, 100);
    r.stop_recording();
    let mut p = r.play_recording(1, 10).unwrap();
    assert_eq!(p.next(r.is_playing()), Some(vec![Synthetic::Pause(30), Synthetic::MoveTo((9.0, 9.0))]));
    let step = p.next(r.is_playing()).unwrap();
    assert_eq!(step[0], Synthetic::Pause(50));
    assert_eq!(step[1], Synthetic::MoveTo((9.0, 9.0)));
    assert_eq!(step.len(), 5);
    r.stop_playing();
    assert_eq!(p.next(r.is_playing()), None);
}

#[test]
fn click_n_times_scenario() {
    let ops = click_n_times((10.0, 20.0), 3, 40);
    let one = vec![
        Synthetic::MoveTo((10.0, 20.0)),
        Synthetic::Press,
        Synthetic::Pause(30),
        Synthetic::Release,
        Synthetic::Pause(40),
    ];
    let expected: Vec<Synthetic<Pos>> = one.iter().chain(one.iter()).chain(one.iter()).copied().collect();
    assert_eq!(ops, expected);
    assert_eq!(ops.iter().filter(|o| **o == Synthetic::Press).count(), 3);
    assert_eq!(ops.iter().filter(|o| **o == Synthetic::Release).count(), 3);
    assert_eq!(BURST_HOLD_MS, 30);
}

#[test]
fn click_n_times_zero_is_empty() {
    assert!(click_n_times((1.0, 1.0), 0, 40).is_empty());
}
