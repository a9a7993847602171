use vstd::prelude::*;
use crate::level::Level;

verus! {

/// One study session, the sole persisted entity. Open while `ended_at` and
/// `duration_seconds` are absent; closed once both are set, atomically, at
/// stop time.
pub struct Session {
    /// Opaque unique identifier, fixed at creation.
    pub id: String,
    /// The proficiency level studied for, fixed at creation.
    pub level: Level,
    /// Wall-clock start, in whole seconds.
    pub started_at: i64,
    /// Wall-clock end, in whole seconds; absent while the session is open.
    pub ended_at: Option<i64>,
    /// Elapsed whole seconds, `ended_at - started_at`; absent while open.
    pub duration_seconds: Option<u64>,
}

/// The mathematical content of a session record.
pub ghost struct SessionData {
    pub id: Seq<char>,
    pub level: Level,
    pub started_at: int,
    pub ended_at: Option<int>,
    pub duration_seconds: Option<int>,
}

impl View for Session {
    type V = SessionData;

    open spec fn view(&self) -> SessionData {
        SessionData {
            id: self.id@,
            level: self.level,
            started_at: self.started_at as int,
            ended_at: match self.ended_at {
                Some(t) => Some(t as int),
                None => None,
            },
            duration_seconds: match self.duration_seconds {
                Some(d) => Some(d as int),
                None => None,
            },
        }
    }
}

impl SessionData {
    /// The invariant of every stored session: timestamps lie in the machine
    /// range, and the end time and duration are either both absent (open)
    /// or both set, with the duration the elapsed whole seconds.
    pub open spec fn wf(self) -> bool {
        &&& i64::MIN <= self.started_at <= i64::MAX
        &&& match (self.ended_at, self.duration_seconds) {
            (None, None) => true,
            (Some(e), Some(d)) => {
                &&& i64::MIN <= e <= i64::MAX
                &&& d == e - self.started_at
                &&& d >= 0
            },
            _ => false,
        }
    }

    /// A session is open until it is stopped or discarded.
    pub open spec fn is_open(self) -> bool {
        self.ended_at is None
    }

    /// The same session, closed at time `now`.
    pub open spec fn closed_at(self, now: int) -> SessionData {
        SessionData {
            ended_at: Some(now),
            duration_seconds: Some(now - self.started_at),
            ..self
        }
    }

    /// What this session adds to the summed seconds of `level`: its
    /// duration if it is a closed session of that level, else nothing.
    pub open spec fn contributes(self, level: Level) -> int {
        if self.level == level {
            match self.duration_seconds {
                Some(d) => d,
                None => 0,
            }
        } else {
            0
        }
    }
}

} // verus!
