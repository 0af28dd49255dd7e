//! The byte pump between an established session and the local terminal.
//!
//! Two copies run side by side: what the session delivers goes to standard
//! output, what standard input delivers goes to the session. The pump is a
//! race, not a join: it stops as soon as either copy ends, for whatever
//! reason, and it never reports an error. Bytes pass through as they were
//! read, in the order they were read.

use vstd::prelude::*;

verus! {

/// One of the two copies of the pump.
#[derive(Clone, Copy, Debug, PartialEq, Eq, Structural)]
pub enum Direction {
    /// From the session's read half to standard output.
    Inbound,
    /// From standard input to the session's write half.
    Outbound,
}

/// Why the pump stopped.
#[derive(Clone, Copy, Debug, PartialEq, Eq, Structural)]
pub enum StopCause {
    /// The copy in this direction ended: its source was exhausted, or a read
    /// or a write of it failed.
    Ended(Direction),
    /// The process was interrupted.
    Interrupted,
}

/// Whether the pump still runs.
#[derive(Clone, Copy, Debug, PartialEq, Eq, Structural)]
pub enum PumpState {
    /// Both copies run.
    Running,
    /// The pump has stopped, and why.
    Stopped(StopCause),
}

/// What the driver of the pump reports.
#[derive(Debug, PartialEq, Eq)]
pub enum PumpEvent {
    /// A read on the source of this direction returned these bytes. No bytes
    /// at all is the end of the source.
    Read(Direction, Vec<u8>),
    /// A read on the source of this direction failed.
    ReadFailed(Direction),
    /// A write to the sink of this direction failed.
    WriteFailed(Direction),
    /// The process was interrupted.
    Interrupted,
}

/// What the driver of the pump is to do next.
#[derive(Debug, PartialEq, Eq)]
pub enum PumpAction {
    /// Write these bytes to the sink of this direction, then read its source
    /// again.
    Forward(Direction, Vec<u8>),
    /// Stop both copies, flush what was written and close the session.
    Close,
    /// Stop both copies and drop the session as it is.
    Abort,
    /// Nothing: the pump has stopped already.
    Nothing,
}

/// Why a report stops a running pump, if it does: every report does but a
/// read that returned bytes.
pub open spec fn stop_cause(event: PumpEvent) -> Option<StopCause> {
    match event {
        PumpEvent::Read(direction, data) => if data@.len() == 0 {
            Some(StopCause::Ended(direction))
        } else {
            None
        },
        PumpEvent::ReadFailed(direction) => Some(StopCause::Ended(direction)),
        PumpEvent::WriteFailed(direction) => Some(StopCause::Ended(direction)),
        PumpEvent::Interrupted => Some(StopCause::Interrupted),
    }
}

/// The state after a report.
pub open spec fn pump_next(state: PumpState, event: PumpEvent) -> PumpState {
    match state {
        PumpState::Running => match stop_cause(event) {
            Some(cause) => PumpState::Stopped(cause),
            None => PumpState::Running,
        },
        PumpState::Stopped(_) => state,
    }
}

/// What the driver is told after a report.
pub open spec fn pump_action(state: PumpState, event: PumpEvent) -> PumpAction {
    match state {
        PumpState::Running => match event {
            PumpEvent::Read(direction, data) => if data@.len() == 0 {
                PumpAction::Close
            } else {
                PumpAction::Forward(direction, data)
            },
            PumpEvent::ReadFailed(_) => PumpAction::Close,
            PumpEvent::WriteFailed(_) => PumpAction::Close,
            PumpEvent::Interrupted => PumpAction::Abort,
        },
        PumpState::Stopped(_) => PumpAction::Nothing,
    }
}

/// The bytes that a step hands on in `direction`.
pub open spec fn forwarded(action: PumpAction, direction: Direction) -> Seq<u8> {
    match action {
        PumpAction::Forward(towards, data) => if towards == direction {
            data@
        } else {
            Seq::<u8>::empty()
        },
        _ => Seq::<u8>::empty(),
    }
}

/// Starts the pump on an established session: both copies run.
pub fn pump() -> (state: PumpState)
    ensures
        state == PumpState::Running,
{
    PumpState::Running
}

/// Takes one report of the pump's driver and decides what follows.
///
/// While the pump runs, bytes that were read are handed on unchanged to the
/// sink of their direction. The first end of input, failed read, failed
/// write or interrupt stops the pump as a whole; after that nothing is
/// handed on any more.
pub fn pump_step(state: PumpState, event: PumpEvent) -> (step: (PumpState, PumpAction))
    ensures
        step.0 == pump_next(state, event),
        step.1 == pump_action(state, event),
{
    match state {
        PumpState::Running => match event {
            PumpEvent::Read(direction, data) => {
                if data.len() == 0 {
                    (PumpState::Stopped(StopCause::Ended(direction)), PumpAction::Close)
                } else {
                    (PumpState::Running, PumpAction::Forward(direction, data))
                }
            },
            PumpEvent::ReadFailed(direction) => (
                PumpState::Stopped(StopCause::Ended(direction)),
                PumpAction::Close,
            ),
            PumpEvent::WriteFailed(direction) => (
                PumpState::Stopped(StopCause::Ended(direction)),
                PumpAction::Close,
            ),
            PumpEvent::Interrupted => (
                PumpState::Stopped(StopCause::Interrupted),
                PumpAction::Abort,
            ),
        },
        PumpState::Stopped(_) => (state, PumpAction::Nothing),
    }
}

/// The state the pump reaches from `state` through a sequence of reports.
pub open spec fn pump_run(state: PumpState, events: Seq<PumpEvent>) -> PumpState
    decreases events.len(),
{
    if events.len() == 0 {
        state
    } else {
        pump_run(pump_next(state, events[0]), events.drop_first())
    }
}

/// All the bytes handed on in `direction` over a sequence of reports, in the
/// order in which they were handed on.
pub open spec fn delivered(state: PumpState, events: Seq<PumpEvent>, direction: Direction) -> Seq<
    u8,
>
    decreases events.len(),
{
    if events.len() == 0 {
        Seq::<u8>::empty()
    } else {
        forwarded(pump_action(state, events[0]), direction) + delivered(
            pump_next(state, events[0]),
            events.drop_first(),
            direction,
        )
    }
}

/// All the bytes read from the source of `direction` before the first report
/// that stops a pump, in the order in which they were read.
pub open spec fn read_before_stop(events: Seq<PumpEvent>, direction: Direction) -> Seq<u8>
    decreases events.len(),
{
    if events.len() == 0 || stop_cause(events[0]) is Some {
        Seq::<u8>::empty()
    } else {
        let first = match events[0] {
            PumpEvent::Read(from, data) => if from == direction {
                data@
            } else {
                Seq::<u8>::empty()
            },
            _ => Seq::<u8>::empty(),
        };
        first + read_before_stop(events.drop_first(), direction)
    }
}

/// A stopped pump stays stopped, for the cause it stopped for, and hands on
/// nothing: the copy that was still running is not drained.
pub proof fn lemma_stopped_pump_is_silent(
    cause: StopCause,
    events: Seq<PumpEvent>,
    direction: Direction,
)
    ensures
        pump_run(PumpState::Stopped(cause), events) == PumpState::Stopped(cause),
        delivered(PumpState::Stopped(cause), events, direction) == Seq::<u8>::empty(),
    decreases events.len(),
{
    if events.len() > 0 {
        lemma_stopped_pump_is_silent(cause, events.drop_first(), direction);
    }
}

/// The pump is a race: it runs through a sequence of reports exactly when
/// none of them ends a copy or is an interrupt, whichever direction the
/// report is about.
pub proof fn lemma_pump_runs_until_first_stop(events: Seq<PumpEvent>)
    ensures
        pump_run(PumpState::Running, events) == PumpState::Running <==> forall|i: int|
            0 <= i < events.len() ==> stop_cause(#[trigger] events[i]) is None,
    decreases events.len(),
{
    if events.len() > 0 {
        let rest = events.drop_first();
        lemma_pump_runs_until_first_stop(rest);
        match stop_cause(events[0]) {
            Some(cause) => {
                lemma_stopped_pump_is_silent(cause, rest, Direction::Inbound);
            },
            None => {
                assert forall|i: int| 0 <= i < rest.len() implies rest[i] == events[i + 1] by {}
                assert forall|i: int| 0 < i < events.len() implies events[i] == rest[i - 1] by {}
            },
        }
    }
}

/// Bytes pass through the pump untransformed and in order: what a running
/// pump hands on in a direction is exactly what was read from the source of
/// that direction before the pump stopped.
pub proof fn lemma_pump_passes_bytes_through(events: Seq<PumpEvent>, direction: Direction)
    ensures
        delivered(PumpState::Running, events, direction) == read_before_stop(events, direction),
    decreases events.len(),
{
    if events.len() > 0 {
        let rest = events.drop_first();
        match stop_cause(events[0]) {
            Some(cause) => {
                lemma_stopped_pump_is_silent(cause, rest, direction);
            },
            None => {
                lemma_pump_passes_bytes_through(rest, direction);
            },
        }
    }
}

} // verus!
