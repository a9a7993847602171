use vstd::prelude::*;

verus! {

/// The ways an operation on the tracker can fail. Every error leaves the
/// store unchanged.
#[derive(Clone, Copy, Debug, PartialEq, Eq, Structural)]
pub enum TrackerError {
    /// The requested level is not one of the enumerated proficiency levels.
    InvalidLevel,
    /// No session with the given id exists.
    NotFound,
    /// The session is already closed; a session is stopped at most once.
    AlreadyStopped,
    /// The clock reported a stop time earlier than the session's start;
    /// a negative duration is rejected rather than recorded.
    ClockRegression,
    /// The store could not honour the request, e.g. a duplicate id on insert.
    Store,
}

} // verus!
