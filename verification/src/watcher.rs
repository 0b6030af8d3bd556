//! The library's model of a raw filesystem notification.
//!
//! The runtime bridges a native watcher's callback into a queue; each
//! delivered notification reaches the supervisors as one of these kinds.
//! Only the kind matters to the state machines: data modifications drive the
//! tail and debounce logic, an error kind routes a supervisor back to its
//! connecting state, and everything else is ignored.
use vstd::prelude::*;

verus! {

/// Kind of one raw change notification for the watched path.
#[derive(Clone, Copy, Debug, PartialEq, Eq, Structural)]
pub enum ChangeKind {
    Created,
    ModifiedData,
    ModifiedOther,
    Removed,
    Other,
    Error,
}

} // verus!
