use purpledrop::driver::{CapacitanceEvent, OpenLoopDriver, PdDriver};
use purpledrop::location::{Direction, Location, Rectangle};
use purpledrop::motion::{
    MoveAction, MoveController, MoveDropResult, MoveError, MoveInput, MovePhase,
};

fn controller(closed_loop: bool) -> MoveController {
    MoveController::new(Location { x: 2, y: 3 }, Location { x: 2, y: 2 }, Direction::Right, closed_loop)
        .unwrap()
}

fn expect_receive(action: MoveAction) -> u64 {
    match action {
        MoveAction::Receive { timeout_ms } => timeout_ms,
        other => panic!("expected a wait, got {:?}", other),
    }
}

fn expect_finish(action: MoveAction) -> MoveDropResult {
    match action {
        MoveAction::Finish(r) => r,
        other => panic!("expected a result, got {:?}", other),
    }
}

/// Runs a closed-loop move up to the start of monitoring, with the given
/// baseline; returns the time at which monitoring began.
fn up_to_monitoring(c: &mut MoveController, baseline: i32) -> u64 {
    assert!(matches!(c.step(MoveInput::Ready, 0), MoveAction::Subscribe));
    match c.step(MoveInput::Ready, 0) {
        MoveAction::Output(r) => {
            assert_eq!(r, Rectangle { location: Location { x: 2, y: 3 }, dimensions: Location { x: 2, y: 2 } })
        }
        other => panic!("expected source output, got {:?}", other),
    }
    assert_eq!(expect_receive(c.step(MoveInput::Ready, 10)), 200);
    assert_eq!(expect_receive(c.step(MoveInput::Event(CapacitanceEvent::Ack), 20)), 200);
    match c.step(MoveInput::Event(CapacitanceEvent::Measurement(baseline)), 30) {
        MoveAction::Output(r) => assert_eq!(r.location, Location { x: 3, y: 3 }),
        other => panic!("expected destination output, got {:?}", other),
    }
    assert_eq!(expect_receive(c.step(MoveInput::Ready, 40)), 200);
    assert_eq!(expect_receive(c.step(MoveInput::Event(CapacitanceEvent::Ack), 50)), 100);
    assert_eq!(c.phase(), MovePhase::Monitoring);
    50
}

#[test]
fn move_fails_when_baseline_never_arrives() {
    let mut c = controller(true);
    assert!(matches!(c.step(MoveInput::Ready, 0), MoveAction::Subscribe));
    assert!(matches!(c.step(MoveInput::Ready, 0), MoveAction::Output(_)));
    assert_eq!(expect_receive(c.step(MoveInput::Ready, 0)), 200);
    assert_eq!(expect_receive(c.step(MoveInput::Event(CapacitanceEvent::Ack), 5)), 200);
    assert_eq!(expect_receive(c.step(MoveInput::Event(CapacitanceEvent::Ack), 55)), 150);
    assert!(matches!(
        c.step(MoveInput::TimedOut, 205),
        MoveAction::Fail(MoveError::BaselineTimeout)
    ));
    assert!(matches!(c.step(MoveInput::Ready, 300), MoveAction::Fail(MoveError::Finished)));
}

#[test]
fn baseline_bound_runs_out_under_unrelated_events() {
    let mut c = controller(true);
    c.step(MoveInput::Ready, 0);
    c.step(MoveInput::Ready, 0);
    c.step(MoveInput::Ready, 0);
    c.step(MoveInput::TimedOut, 200);
    assert!(matches!(
        c.step(MoveInput::Event(CapacitanceEvent::StepperAck), 400),
        MoveAction::Fail(MoveError::BaselineTimeout)
    ));
}

#[test]
fn lost_acknowledgement_does_not_stop_the_move() {
    let mut c = controller(true);
    c.step(MoveInput::Ready, 0);
    c.step(MoveInput::Ready, 0);
    c.step(MoveInput::Ready, 0);
    assert_eq!(expect_receive(c.step(MoveInput::TimedOut, 200)), 200);
    assert_eq!(c.phase(), MovePhase::AwaitInitialMeasurement);
}

#[test]
fn move_succeeds_after_trailing_measurements_above_threshold() {
    let mut c = controller(true);
    let t0 = up_to_monitoring(&mut c, 100);
    for i in 0..499u64 {
        let a = c.step(MoveInput::Event(CapacitanceEvent::Measurement(85)), t0 + i);
        assert_eq!(expect_receive(a), 100);
    }
    let r = expect_finish(c.step(MoveInput::Event(CapacitanceEvent::Measurement(85)), t0 + 499));
    assert!(r.success);
    assert!(r.closed_loop);
    let d = r.closed_loop_result.unwrap();
    assert_eq!(d.pre_capacitance, 100);
    assert!(d.post_capacitance >= 80);
    assert_eq!(d.capacitance_series.len(), 500);
    assert_eq!(d.time_series.len(), 500);
    assert_eq!(d.time_series[0], 0);
    assert_eq!(d.time_series[1], 2);
    assert_eq!(d.time_series[499], 998);
}

#[test]
fn move_fails_when_capacitance_stays_low_for_the_window() {
    let mut c = controller(true);
    let t0 = up_to_monitoring(&mut c, 100);
    let mut t = t0;
    let result = loop {
        match c.step(MoveInput::Event(CapacitanceEvent::Measurement(50)), t) {
            MoveAction::Receive { .. } => t += 2,
            MoveAction::Finish(r) => break r,
            other => panic!("unexpected {:?}", other),
        }
    };
    assert!(t > t0 + 3000);
    assert!(!result.success);
    assert!(result.closed_loop);
    assert_eq!(result.closed_loop_result.unwrap().post_capacitance, 50);
}

#[test]
fn success_needs_more_than_eighty_percent() {
    let mut c = controller(true);
    let t0 = up_to_monitoring(&mut c, 100);
    c.step(MoveInput::Event(CapacitanceEvent::Measurement(80)), t0 + 1);
    let r = expect_finish(c.step(MoveInput::TimedOut, t0 + 3001));
    assert!(!r.success);
    assert_eq!(r.closed_loop_result.unwrap().post_capacitance, 80);
}

#[test]
fn trailing_count_needs_consecutive_samples() {
    let mut c = controller(true);
    let t0 = up_to_monitoring(&mut c, 100);
    for _ in 0..499 {
        expect_receive(c.step(MoveInput::Event(CapacitanceEvent::Measurement(90)), t0 + 1));
    }
    expect_receive(c.step(MoveInput::Event(CapacitanceEvent::Measurement(10)), t0 + 1));
    for _ in 0..499 {
        expect_receive(c.step(MoveInput::Event(CapacitanceEvent::Measurement(90)), t0 + 1));
    }
    let r = expect_finish(c.step(MoveInput::Event(CapacitanceEvent::Measurement(90)), t0 + 1));
    assert!(r.success);
    assert_eq!(r.closed_loop_result.unwrap().capacitance_series.len(), 1000);
}

#[test]
fn monitoring_without_measurements_reports_failure() {
    let mut c = controller(true);
    let t0 = up_to_monitoring(&mut c, 100);
    assert_eq!(expect_receive(c.step(MoveInput::TimedOut, t0 + 100)), 100);
    let r = expect_finish(c.step(MoveInput::TimedOut, t0 + 3001));
    assert!(!r.success);
    let d = r.closed_loop_result.unwrap();
    assert_eq!(d.post_capacitance, 0);
    assert!(d.capacitance_series.is_empty());
}

#[test]
fn open_loop_move_succeeds_after_settling() {
    let mut c = controller(false);
    match c.step(MoveInput::Ready, 0) {
        MoveAction::Output(r) => assert_eq!(r.location, Location { x: 3, y: 3 }),
        other => panic!("expected destination output, got {:?}", other),
    }
    assert!(matches!(
        c.step(MoveInput::Event(CapacitanceEvent::Measurement(1)), 1),
        MoveAction::Sleep { ms: 1000 }
    ));
    let r = expect_finish(c.step(MoveInput::Event(CapacitanceEvent::Ack), 1001));
    assert!(r.success);
    assert!(!r.closed_loop);
    assert!(r.closed_loop_result.is_none());
}

#[test]
fn move_beyond_coordinate_range_is_refused() {
    let edge = Location { x: i32::MAX, y: 0 };
    assert!(MoveController::new(edge, Location { x: 1, y: 1 }, Direction::Right, true).is_none());
    assert_eq!(edge.move_one(Direction::Left), Some(Location { x: i32::MAX - 1, y: 0 }));
    assert_eq!(Location { x: 0, y: 0 }.move_one(Direction::Up), Some(Location { x: 0, y: -1 }));
    assert_eq!(Location { x: 0, y: 0 }.move_one(Direction::Down), Some(Location { x: 0, y: 1 }));
}

#[test]
fn empty_monitoring_fails_even_with_negative_baseline() {
    let mut c = controller(true);
    let t0 = up_to_monitoring(&mut c, -50);
    let r = expect_finish(c.step(MoveInput::TimedOut, t0 + 3001));
    assert!(!r.success);
    assert_eq!(r.closed_loop_result.unwrap().post_capacitance, 0);
}

#[test]
fn negative_baseline_is_exceeded_by_a_recorded_sample() {
    let mut c = controller(true);
    let t0 = up_to_monitoring(&mut c, -50);
    expect_receive(c.step(MoveInput::Event(CapacitanceEvent::Measurement(-39)), t0 + 1));
    let r = expect_finish(c.step(MoveInput::TimedOut, t0 + 3001));
    assert!(r.success);
}

#[test]
fn driver_decides_between_closed_and_open_loop() {
    let start = Location { x: 0, y: 0 };
    let size = Location { x: 1, y: 1 };
    let mut closed = MoveController::for_driver(&PdDriver::new(), start, size, Direction::Down).unwrap();
    assert!(matches!(closed.step(MoveInput::Ready, 0), MoveAction::Subscribe));
    let mut open = MoveController::for_driver(&OpenLoopDriver::new(), start, size, Direction::Down).unwrap();
    assert!(matches!(open.step(MoveInput::Ready, 0), MoveAction::Output(_)));
}
