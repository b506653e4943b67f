//! The poll/notify control loop as a pure state machine: from a state and one
//! event — timer tick, notification arrival, or cancellation — to the next
//! state and the action the driver must perform. The driver performs the
//! action (send, print, stop) and feeds back the next event; no ordering
//! between ticks and notifications is assumed.

use vstd::prelude::*;

use crate::codec::DecodeError;
use crate::codec::MIN_FRAME_LEN;
use crate::codec::decode_telemetry;
use crate::codec::encode_poll_command;
use crate::codec::has_magic;
use crate::codec::poll_command;
use crate::codec::telemetry_of;
use crate::error::SessionError;
use crate::render::render_telemetry;
use crate::render::telemetry_text;

verus! {

/// The loop's state: polling and decoding, winding down after cancellation,
/// or terminal.
#[derive(Clone, Copy, Debug, PartialEq, Eq, Structural)]
pub enum LoopState {
    Running,
    Stopping,
    Stopped,
}

/// One event from the loop's wait set.
#[derive(Debug)]
pub enum LoopEvent {
    /// The fixed-interval poll timer fired.
    Tick,
    /// A notification arrived with these raw bytes.
    Notification(Vec<u8>),
    /// The external cancellation signal arrived.
    Cancel,
}

/// What the driver must do after one step.
#[derive(Debug)]
pub enum LoopAction {
    /// Write these bytes to the command characteristic.
    SendPoll(Vec<u8>),
    /// Print this telemetry line.
    Render(String),
    /// Nothing to do for this event.
    Quiet,
    /// Stop the loop cleanly.
    Halt,
    /// Abort: a fatal condition was observed.
    Fail(SessionError),
}

/// What a step on a notification must yield: silence for a foreign frame, a
/// fatal error for a truncated telemetry frame, the rendered line otherwise.
pub open spec fn notification_post(data: Seq<u8>, r: (LoopState, LoopAction)) -> bool {
    if !has_magic(data) {
        r.0 == LoopState::Running && r.1 is Quiet
    } else if data.len() < MIN_FRAME_LEN {
        r.0 == LoopState::Stopped && (r.1 matches LoopAction::Fail(e) && e
            == SessionError::MalformedFrame)
    } else {
        r.0 == LoopState::Running && (r.1 matches LoopAction::Render(line) && line@
            == telemetry_text(telemetry_of(data)))
    }
}

/// One step of the poll/notify loop. While running, a tick sends the poll
/// command, a notification is decoded and rendered (a foreign frame is
/// silently dropped; a truncated telemetry frame is fatal), and cancellation
/// begins an orderly stop. After cancellation no further send or decode
/// happens.
pub fn poll_step(state: LoopState, event: &LoopEvent) -> (r: (LoopState, LoopAction))
    ensures
        state == LoopState::Running && event is Tick ==> r.0 == LoopState::Running && (
        r.1 matches LoopAction::SendPoll(c) && c@ == poll_command()),
        state == LoopState::Running ==> (event matches LoopEvent::Notification(d)
            ==> notification_post(d@, r)),
        state == LoopState::Running && event is Cancel ==> r.0 == LoopState::Stopping && r.1 is Halt,
        state != LoopState::Running ==> r.0 == LoopState::Stopped && r.1 is Quiet,
{
    match state {
        LoopState::Running => match event {
            LoopEvent::Tick => (LoopState::Running, LoopAction::SendPoll(encode_poll_command())),
            LoopEvent::Notification(data) => match decode_telemetry(data.as_slice()) {
                Ok(Some(t)) => (LoopState::Running, LoopAction::Render(render_telemetry(&t))),
                Ok(None) => (LoopState::Running, LoopAction::Quiet),
                Err(DecodeError::MalformedFrame) => (
                    LoopState::Stopped,
                    LoopAction::Fail(SessionError::MalformedFrame),
                ),
            },
            LoopEvent::Cancel => (LoopState::Stopping, LoopAction::Halt),
        },
        LoopState::Stopping => (LoopState::Stopped, LoopAction::Quiet),
        LoopState::Stopped => (LoopState::Stopped, LoopAction::Quiet),
    }
}

} // verus!
