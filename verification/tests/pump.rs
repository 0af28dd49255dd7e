use tls_tunnel::pump::{pump, pump_step, Direction, PumpAction, PumpEvent, PumpState, StopCause};

#[test]
fn the_pump_starts_running() {
    assert_eq!(pump(), PumpState::Running);
}

#[test]
fn bytes_read_are_forwarded_unchanged_in_their_direction() {
    let (state, action) =
        pump_step(PumpState::Running, PumpEvent::Read(Direction::Outbound, b"ping\n".to_vec()));
    assert_eq!(state, PumpState::Running);
    assert_eq!(action, PumpAction::Forward(Direction::Outbound, b"ping\n".to_vec()));

    let (state, action) =
        pump_step(state, PumpEvent::Read(Direction::Inbound, vec![0, 255, 10, 13, 0]));
    assert_eq!(state, PumpState::Running);
    assert_eq!(action, PumpAction::Forward(Direction::Inbound, vec![0, 255, 10, 13, 0]));
}

#[test]
fn end_of_input_in_either_direction_stops_the_whole_pump() {
    for direction in [Direction::Inbound, Direction::Outbound] {
        let (state, action) =
            pump_step(PumpState::Running, PumpEvent::Read(direction, Vec::new()));
        assert_eq!(state, PumpState::Stopped(StopCause::Ended(direction)));
        assert_eq!(action, PumpAction::Close);
    }
}

#[test]
fn a_failed_read_or_write_stops_the_pump_without_an_error() {
    for direction in [Direction::Inbound, Direction::Outbound] {
        let (state, action) = pump_step(PumpState::Running, PumpEvent::ReadFailed(direction));
        assert_eq!(state, PumpState::Stopped(StopCause::Ended(direction)));
        assert_eq!(action, PumpAction::Close);

        let (state, action) = pump_step(PumpState::Running, PumpEvent::WriteFailed(direction));
        assert_eq!(state, PumpState::Stopped(StopCause::Ended(direction)));
        assert_eq!(action, PumpAction::Close);
    }
}

#[test]
fn an_interrupt_aborts_the_pump() {
    let (state, action) = pump_step(PumpState::Running, PumpEvent::Interrupted);
    assert_eq!(state, PumpState::Stopped(StopCause::Interrupted));
    assert_eq!(action, PumpAction::Abort);
}

#[test]
fn a_stopped_pump_forwards_nothing_and_keeps_its_cause() {
    let stopped = PumpState::Stopped(StopCause::Ended(Direction::Inbound));
    let later = [
        PumpEvent::Read(Direction::Outbound, b"still typing".to_vec()),
        PumpEvent::Read(Direction::Outbound, Vec::new()),
        PumpEvent::ReadFailed(Direction::Inbound),
        PumpEvent::WriteFailed(Direction::Outbound),
        PumpEvent::Interrupted,
    ];
    let mut state = stopped;
    for event in later {
        let (next, action) = pump_step(state, event);
        assert_eq!(next, stopped);
        assert_eq!(action, PumpAction::Nothing);
        state = next;
    }
}

#[test]
fn what_is_delivered_is_what_was_read_before_the_stop() {
    let events = vec![
        PumpEvent::Read(Direction::Outbound, b"pi".to_vec()),
        PumpEvent::Read(Direction::Inbound, b"po".to_vec()),
        PumpEvent::Read(Direction::Outbound, b"ng\n".to_vec()),
        PumpEvent::Read(Direction::Inbound, b"ng\n".to_vec()),
        PumpEvent::Read(Direction::Outbound, Vec::new()),
        PumpEvent::Read(Direction::Inbound, b"late".to_vec()),
    ];
    let mut state = pump();
    let mut to_session = Vec::new();
    let mut to_terminal = Vec::new();
    for event in events {
        let (next, action) = pump_step(state, event);
        if let PumpAction::Forward(direction, bytes) = action {
            match direction {
                Direction::Outbound => to_session.extend(bytes),
                Direction::Inbound => to_terminal.extend(bytes),
            }
        }
        state = next;
    }
    assert_eq!(to_session, b"ping\n".to_vec());
    assert_eq!(to_terminal, b"pong\n".to_vec());
    assert_eq!(state, PumpState::Stopped(StopCause::Ended(Direction::Outbound)));
}

#[test]
fn closing_the_local_input_ends_the_pump_at_once() {
    let (state, action) =
        pump_step(pump(), PumpEvent::Read(Direction::Outbound, b"ping\n".to_vec()));
    assert_eq!(action, PumpAction::Forward(Direction::Outbound, b"ping\n".to_vec()));
    let (state, action) = pump_step(state, PumpEvent::Read(Direction::Outbound, Vec::new()));
    assert_eq!(state, PumpState::Stopped(StopCause::Ended(Direction::Outbound)));
    assert_eq!(action, PumpAction::Close);
}
