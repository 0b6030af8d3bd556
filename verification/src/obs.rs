//! Types and decisions of the overlay text-push client.
//!
//! The network client itself lives in the runtime; the library fixes the
//! request and event types it exchanges with the rest of the program and the
//! decision how a failed push is handled.
use vstd::prelude::*;

verus! {

/// One text update for a named overlay element, delivered at most once per
/// render tick over a bounded, drop-tolerant queue.
#[derive(Clone, Debug)]
pub struct SetTextRequest {
    pub element: String,
    pub text: String,
}

/// Connection lifecycle events the client reports to the display loop.
#[derive(Clone, Debug)]
pub enum Event {
    Disconnected,
    Connected,
    Error(String),
}

/// How one push to the overlay went.
#[derive(Clone, Copy, Debug, PartialEq, Eq, Structural)]
pub enum SendOutcome {
    /// The overlay accepted the update.
    Delivered,
    /// The overlay answered with an application error: the addressed element
    /// does not exist. Tolerated; the session goes on.
    RejectedByApi,
    /// The transport failed: the connection is gone.
    TransportFailed,
}

/// What the client loop does after a push.
#[derive(Clone, Copy, Debug, PartialEq, Eq, Structural)]
pub enum SendDisposition {
    KeepGoing,
    DisconnectAndStop,
}

/// The client's decision after one push: only a transport failure ends the
/// session (the loop then reports a disconnect and reconnects); a delivered
/// update or a merely rejected one keeps it running.
pub fn handle_send_outcome(o: SendOutcome) -> (r: SendDisposition)
    ensures
        r == (match o {
            SendOutcome::TransportFailed => SendDisposition::DisconnectAndStop,
            _ => SendDisposition::KeepGoing,
        }),
{
    match o {
        SendOutcome::TransportFailed => SendDisposition::DisconnectAndStop,
        _ => SendDisposition::KeepGoing,
    }
}

} // verus!
