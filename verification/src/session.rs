use vstd::prelude::*;

verus! {

/// The lifecycle state the controller tracks for one device.
///
/// `Closed` and `Removed` are terminal for a device record: a session that
/// has been closed out, or a device that has been removed, never goes back
/// to `Open`. A device that reappears is reported by a fresh discovery
/// event and gets a fresh record.
#[derive(Clone, Copy, Debug, PartialEq, Eq, Structural)]
pub enum SessionState {
    /// Discovered, with no session open and none in flight. A failed open
    /// request returns here so the caller may retry.
    Discovered,
    /// An open request is in flight.
    Opening,
    /// The session is open.
    Open,
    /// A close request is in flight.
    Closing,
    /// The session lifecycle has ended; terminal.
    Closed,
    /// The device was removed; the handle is invalid; terminal.
    Removed,
}

/// A native event the per-device state machine consumes, as decoded from
/// the delegate callbacks.
#[derive(Clone, Copy, Debug, PartialEq, Eq, Structural)]
pub enum SessionEvent {
    /// The device was removed.
    DeviceRemoved,
    /// The open request completed without an error.
    OpenedOk,
    /// The open request completed with a native error code.
    OpenedErr { code: i64 },
    /// The session closed without an error.
    ClosedOk,
    /// The session closed with a native error code.
    ClosedErr { code: i64 },
}

/// Whether `s` is terminal: no event moves a device record out of it.
pub open spec fn is_terminal(s: SessionState) -> bool {
    s is Closed || s is Removed
}

/// The state after consuming one native event.
///
/// Removal wins unconditionally over any in-flight open or close. An event
/// that does not fit the current state is stale (for example a late open
/// confirmation after the device was removed) and leaves the state alone.
pub open spec fn step_spec(s: SessionState, e: SessionEvent) -> SessionState {
    match e {
        SessionEvent::DeviceRemoved => SessionState::Removed,
        SessionEvent::OpenedOk => if s is Opening {
            SessionState::Open
        } else {
            s
        },
        SessionEvent::OpenedErr { .. } => if s is Opening {
            SessionState::Discovered
        } else {
            s
        },
        SessionEvent::ClosedOk => if s is Closing || s is Open {
            SessionState::Closed
        } else {
            s
        },
        SessionEvent::ClosedErr { .. } => if s is Closing || s is Open {
            SessionState::Closed
        } else {
            s
        },
    }
}

/// One step of the per-device state machine.
pub fn step(s: SessionState, e: SessionEvent) -> (r: SessionState)
    ensures
        r == step_spec(s, e),
{
    match e {
        SessionEvent::DeviceRemoved => SessionState::Removed,
        SessionEvent::OpenedOk => if s == SessionState::Opening {
            SessionState::Open
        } else {
            s
        },
        SessionEvent::OpenedErr { .. } => if s == SessionState::Opening {
            SessionState::Discovered
        } else {
            s
        },
        SessionEvent::ClosedOk => if s == SessionState::Closing || s == SessionState::Open {
            SessionState::Closed
        } else {
            s
        },
        SessionEvent::ClosedErr { .. } => if s == SessionState::Closing || s == SessionState::Open {
            SessionState::Closed
        } else {
            s
        },
    }
}

/// Whether `s` is terminal.
pub fn terminal(s: SessionState) -> (r: bool)
    ensures
        r == is_terminal(s),
{
    s == SessionState::Closed || s == SessionState::Removed
}

/// Removal is irreversible, and a closed-out record never reopens: from a
/// terminal state, every event leads to a terminal state, never to `Open`,
/// and from `Removed` every event leads back to `Removed`.
pub proof fn lemma_terminal_is_trap(s: SessionState, e: SessionEvent)
    ensures
        step_spec(SessionState::Removed, e) is Removed,
        is_terminal(s) ==> is_terminal(step_spec(s, e)),
        is_terminal(s) ==> step_spec(s, e) !is Open,
{
}

/// The state after consuming a whole sequence of native events, oldest
/// first.
pub open spec fn run_spec(s: SessionState, events: Seq<SessionEvent>) -> SessionState
    decreases events.len(),
{
    if events.len() == 0 {
        s
    } else {
        run_spec(step_spec(s, events[0]), events.drop_first())
    }
}

/// Removal is irreversible over any number of further events, and a
/// terminal record never returns to `Open`, however many events follow.
pub proof fn lemma_terminal_never_reopens(s: SessionState, events: Seq<SessionEvent>)
    requires
        is_terminal(s),
    ensures
        is_terminal(run_spec(s, events)),
        run_spec(s, events) !is Open,
        s is Removed ==> run_spec(s, events) is Removed,
    decreases events.len(),
{
    if events.len() > 0 {
        lemma_terminal_is_trap(s, events[0]);
        lemma_terminal_never_reopens(step_spec(s, events[0]), events.drop_first());
    }
}

/// The only way into `Open` is a successful open confirmation received
/// while an open request was in flight; no event carries a terminal or
/// idle record into `Open`.
pub proof fn lemma_open_only_from_opening(s: SessionState, e: SessionEvent)
    ensures
        step_spec(s, e) is Open ==> (s is Opening && e is OpenedOk) || (s is Open && !(
        e is DeviceRemoved
            || e is ClosedOk
            || e is ClosedErr)),
{
}

} // verus!
