//! Device locator: the decision logic over the adapter's discovery stream.
//! Each advertisement event is reduced to a plain value — an opaque device
//! handle and the advertised local name — and the locator accepts exactly the
//! first event whose name equals the target.

use vstd::prelude::*;

use crate::error::SessionError;

verus! {

/// One event from the discovery stream, reduced to what the locator reads.
/// `device` is an opaque handle chosen by the caller (for instance an index
/// into its own table of peripherals); every event kind other than a device
/// discovery is `Other`.
#[derive(Debug)]
pub enum ScanEvent {
    Discovered { device: u64, local_name: Option<String> },
    Other,
}

/// The locator's decision on one event: accept the device — stop the scan and
/// return its handle — or ignore the event and keep scanning.
#[derive(Clone, Copy, Debug, PartialEq, Eq, Structural)]
pub enum ScanAction {
    Accept,
    Ignore,
}

/// True when the event is a device discovery whose advertised local name
/// equals `target` exactly (case-sensitive).
pub open spec fn event_matches(e: ScanEvent, target: Seq<char>) -> bool {
    match e {
        ScanEvent::Discovered { device, local_name } => match local_name {
            Some(n) => n@ == target,
            None => false,
        },
        ScanEvent::Other => false,
    }
}

/// The handle carried by a discovery event.
pub open spec fn device_of(e: ScanEvent) -> u64 {
    match e {
        ScanEvent::Discovered { device, local_name } => device,
        ScanEvent::Other => 0,
    }
}

/// Decides one discovery event: accept exactly the events whose advertised
/// name equals the target.
pub fn locate_step(e: &ScanEvent, target: &String) -> (r: ScanAction)
    ensures
        r == (if event_matches(*e, target@) {
            ScanAction::Accept
        } else {
            ScanAction::Ignore
        }),
{
    match e {
        ScanEvent::Discovered { device: _, local_name: Some(n) } => {
            if *n == *target {
                ScanAction::Accept
            } else {
                ScanAction::Ignore
            }
        },
        _ => ScanAction::Ignore,
    }
}

/// Runs the locator over a finite discovery stream: returns the handle of the
/// first event advertising the target name; when the stream ends without a
/// match the device was not found.
pub fn find_device(events: &Vec<ScanEvent>, target: &String) -> (r: Result<u64, SessionError>)
    ensures
        match r {
            Ok(d) => exists|i: int|
                0 <= i < events@.len() && event_matches(events@[i], target@) && d == device_of(
                    events@[i],
                ) && (forall|j: int| 0 <= j < i ==> !event_matches(events@[j], target@)),
            Err(e) => e == SessionError::NotFound && (forall|i: int|
                0 <= i < events@.len() ==> !event_matches(events@[i], target@)),
        },
{
    let mut i: usize = 0;
    while i < events.len()
        invariant
            i <= events@.len(),
            forall|j: int| 0 <= j < i ==> !event_matches(events@[j], target@),
        decreases events@.len() - i,
    {
        let action = locate_step(&events[i], target);
        if matches!(action, ScanAction::Accept) {
            match &events[i] {
                ScanEvent::Discovered { device, local_name: _ } => {
                    return Ok(*device);
                },
                ScanEvent::Other => {
                    assert(false);
                },
            }
        }
        i = i + 1;
    }
    Err(SessionError::NotFound)
}

} // verus!
