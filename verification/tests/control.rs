use spacenav_bridge::control::{ControlLoop, LoopAction, LoopEvent, LoopPhase};
use spacenav_bridge::error::BridgeError;
use spacenav_bridge::report::apply_report;
use spacenav_bridge::state::JoystickState;

fn started() -> ControlLoop {
    ControlLoop::start(1).expect("device one is a device")
}

fn fresh() -> JoystickState {
    JoystickState::new(1).expect("device one is a device")
}

/// Runs one whole turn of the loop on `frame` and gives the state that was
/// to be pushed.
fn turn(control: &mut ControlLoop, frame: [u8; 7]) -> JoystickState {
    assert_eq!(control.step(LoopEvent::Observed { running: true }), LoopAction::Read);
    let pushed = match control.step(LoopEvent::Frame(frame)) {
        LoopAction::Push(state) => state,
        action => panic!("expected a push, got {:?}", action),
    };
    assert_eq!(control.step(LoopEvent::Pushed), LoopAction::Observe);
    pushed
}

#[test]
fn loop_starts_by_observing() {
    let control = started();
    assert_eq!(control.phase, LoopPhase::Observing);
    assert_eq!(control.state, fresh());
    assert_eq!(control.pending(), LoopAction::Observe);
}

#[test]
fn loop_for_device_zero_is_refused() {
    assert_eq!(ControlLoop::start(0), None);
}

#[test]
fn loop_turns_observe_read_push() {
    let mut control = started();
    assert_eq!(control.step(LoopEvent::Observed { running: true }), LoopAction::Read);
    assert_eq!(control.phase, LoopPhase::Reading);
    let expected = JoystickState { buttons: 1, ..fresh() };
    assert_eq!(
        control.step(LoopEvent::Frame([3, 1, 0, 0, 0, 0, 0])),
        LoopAction::Push(expected)
    );
    assert_eq!(control.phase, LoopPhase::Pushing);
    assert_eq!(control.step(LoopEvent::Pushed), LoopAction::Observe);
    assert_eq!(control.phase, LoopPhase::Observing);
    assert_eq!(control.state, expected);
}

#[test]
fn loop_runs_the_end_to_end_scenario() {
    let mut control = started();
    turn(&mut control, [2, 0x00, 0x00, 0x10, 0x00, 0x20, 0x00]);
    turn(&mut control, [1, 0x00, 0x01, 0x00, 0x00, 0x00, 0x00]);
    let pushed = turn(&mut control, [3, 0x03, 0, 0, 0, 0, 0]);
    let expected = JoystickState {
        axis_x: 256 * 47 + 16383,
        axis_y: 16383,
        axis_z: 16383,
        axis_x_rot: 16383,
        axis_y_rot: 0x20 * 47 + 16383,
        axis_z_rot: 0x10 * 47 + 16383,
        buttons: 3,
        ..fresh()
    };
    assert_eq!(pushed, expected);
    assert_eq!(control.state, expected);
}

#[test]
fn unrecognized_frame_is_pushed_unchanged() {
    let mut control = started();
    let before = turn(&mut control, [1, 1, 2, 3, 4, 5, 6]);
    let after = turn(&mut control, [4, 1, 0, 0, 0, 0, 0]);
    assert_eq!(before, after);
}

#[test]
fn cleared_flag_stops_the_loop() {
    let mut control = started();
    turn(&mut control, [3, 2, 0, 0, 0, 0, 0]);
    let state = control.state;
    assert_eq!(control.step(LoopEvent::Observed { running: false }), LoopAction::Exit);
    assert_eq!(control.phase, LoopPhase::Stopped);
    assert_eq!(control.state, state);
}

#[test]
fn flag_cleared_before_the_first_turn_stops_the_loop() {
    let mut control = started();
    assert_eq!(control.step(LoopEvent::Observed { running: false }), LoopAction::Exit);
    assert_eq!(control.state, fresh());
}

#[test]
fn stopped_loop_never_resumes() {
    let mut control = started();
    turn(&mut control, [1, 1, 2, 3, 4, 5, 6]);
    control.step(LoopEvent::Observed { running: false });
    let stopped = control;
    let later = [
        LoopEvent::Observed { running: true },
        LoopEvent::Frame([3, 3, 0, 0, 0, 0, 0]),
        LoopEvent::Pushed,
        LoopEvent::ReadFailed,
        LoopEvent::Observed { running: true },
        LoopEvent::Observed { running: false },
    ];
    for event in later {
        assert_eq!(control.step(event), LoopAction::Exit);
        assert_eq!(control, stopped);
    }
}

#[test]
fn frame_read_while_the_flag_clears_is_still_pushed() {
    let mut control = started();
    assert_eq!(control.step(LoopEvent::Observed { running: true }), LoopAction::Read);
    let expected = JoystickState { buttons: 3, ..fresh() };
    assert_eq!(
        control.step(LoopEvent::Frame([3, 3, 0, 0, 0, 0, 0])),
        LoopAction::Push(expected)
    );
    assert_eq!(control.step(LoopEvent::Pushed), LoopAction::Observe);
    assert_eq!(control.step(LoopEvent::Observed { running: false }), LoopAction::Exit);
}

#[test]
fn failed_read_aborts_the_loop() {
    let mut control = started();
    turn(&mut control, [3, 1, 0, 0, 0, 0, 0]);
    control.step(LoopEvent::Observed { running: true });
    assert_eq!(
        control.step(LoopEvent::ReadFailed),
        LoopAction::Abort(BridgeError::FatalReadError)
    );
    assert_eq!(control.phase, LoopPhase::Aborted);
    let aborted = control;
    for event in [
        LoopEvent::Observed { running: true },
        LoopEvent::Frame([3, 3, 0, 0, 0, 0, 0]),
        LoopEvent::Pushed,
        LoopEvent::ReadFailed,
    ] {
        assert_eq!(control.step(event), LoopAction::Abort(BridgeError::FatalReadError));
        assert_eq!(control, aborted);
    }
}

#[test]
fn flag_is_looked_at_only_between_push_and_read() {
    let mut control = started();
    control.step(LoopEvent::Observed { running: true });
    assert_eq!(control.step(LoopEvent::Observed { running: false }), LoopAction::Read);
    assert_eq!(control.phase, LoopPhase::Reading);
    let action = control.step(LoopEvent::Frame([3, 1, 0, 0, 0, 0, 0]));
    assert!(matches!(action, LoopAction::Push(_)));
    assert_eq!(control.step(LoopEvent::Observed { running: false }), action);
    assert_eq!(control.phase, LoopPhase::Pushing);
}

#[test]
fn event_out_of_turn_is_ignored() {
    let mut control = started();
    let before = control;
    assert_eq!(control.step(LoopEvent::Frame([3, 3, 0, 0, 0, 0, 0])), LoopAction::Observe);
    assert_eq!(control.step(LoopEvent::ReadFailed), LoopAction::Observe);
    assert_eq!(control.step(LoopEvent::Pushed), LoopAction::Observe);
    assert_eq!(control, before);
    control.step(LoopEvent::Observed { running: true });
    assert_eq!(control.step(LoopEvent::Pushed), LoopAction::Read);
    control.step(LoopEvent::Frame([3, 1, 0, 0, 0, 0, 0]));
    let pushing = control;
    assert!(matches!(
        control.step(LoopEvent::Frame([3, 2, 0, 0, 0, 0, 0])),
        LoopAction::Push(_)
    ));
    assert!(matches!(control.step(LoopEvent::ReadFailed), LoopAction::Push(_)));
    assert_eq!(control, pushing);
}

#[test]
fn loop_follows_the_frames_it_reads() {
    let frames: [[u8; 7]; 6] = [
        [1, 0x10, 0x00, 0x20, 0x00, 0x30, 0x00],
        [9, 1, 2, 3, 4, 5, 6],
        [2, 0xff, 0xff, 0x00, 0x80, 0xff, 0x7f],
        [3, 1, 0, 0, 0, 0, 0],
        [1, 0x5e, 0x01, 0xa2, 0xfe, 0x00, 0x00],
        [3, 2, 0, 0, 0, 0, 0],
    ];
    let mut control = started();
    let mut state = fresh();
    for frame in frames {
        apply_report(&mut state, &frame);
        assert_eq!(turn(&mut control, frame), state);
        assert_eq!(control.state, state);
        assert_eq!(control.phase, LoopPhase::Observing);
    }
    let expected = JoystickState {
        axis_x: 350 * 47 + 16383,
        axis_y: 16383,
        axis_z: -350 * 47 + 16383,
        axis_x_rot: -47 + 16383,
        axis_y_rot: 32767 * 47 + 16383,
        axis_z_rot: -32768 * 47 + 16383,
        buttons: 2,
        ..fresh()
    };
    assert_eq!(control.state, expected);
}
