use vstd::prelude::*;
use crate::errors::TrackerError;
use crate::level::Level;
use crate::rounding::round_minutes;
use crate::session::SessionData;
use crate::store::{
    contains_id, index_of_id, lemma_remove_erases_id, lemma_sum_push, store_wf, sum_closed_seconds,
};
use crate::tracker::{discard_spec, start_spec, stop_spec};

verus! {

/// Round-trip: starting a session and stopping the same id `t_stop -
/// t_start` seconds later succeeds and reports exactly those seconds
/// rounded to minutes — a non-negative figure.
pub proof fn lemma_start_stop_round_trip(
    s: Seq<SessionData>,
    level: Level,
    id: Seq<char>,
    t_start: int,
    t_stop: int,
)
    requires
        store_wf(s),
        !contains_id(s, id),
        t_start <= t_stop,
    ensures
        ({
            let s1 = start_spec(s, level, id, t_start);
            stop_spec(s1, id, t_stop).1 == Ok::<int, TrackerError>(round_minutes(t_stop - t_start))
        }),
        round_minutes(t_stop - t_start) >= 0,
{
    let s1 = start_spec(s, level, id, t_start);
    let n = s.len() as int;
    assert(s1[n].id == id);
    assert(contains_id(s1, id));
    let k = index_of_id(s1, id);
    assert(s1[k].id == id);
    if k != n {
        assert(s1[k] == s[k]);
        assert(s[k].id != id);
        assert(false);
    }
    assert(s1[k].is_open());
    assert(s1[k].started_at == t_start);
}

/// Stop is not idempotent: after a successful stop, stopping the same id
/// again fails with `AlreadyStopped` and leaves the state exactly as the
/// first stop left it.
pub proof fn lemma_second_stop_rejected(s: Seq<SessionData>, id: Seq<char>, t1: int, t2: int)
    requires
        store_wf(s),
        stop_spec(s, id, t1).1 is Ok,
    ensures
        stop_spec(stop_spec(s, id, t1).0, id, t2) == (
            stop_spec(s, id, t1).0,
            Err::<int, TrackerError>(TrackerError::AlreadyStopped),
        ),
{
    let i = index_of_id(s, id);
    let s1 = stop_spec(s, id, t1).0;
    assert(s1 == s.update(i, s[i].closed_at(t1)));
    assert(s1[i].id == id);
    assert(contains_id(s1, id));
    let k = index_of_id(s1, id);
    assert(s1[k].id == id);
    if k != i {
        assert(s1[k] == s[k]);
        assert(s[k].id != s[i].id);
        assert(false);
    }
    assert(!s1[k].is_open());
}

/// Discard is final: after a successful discard, stopping the id and
/// discarding it again both fail with `NotFound` and change nothing.
pub proof fn lemma_discard_finality(s: Seq<SessionData>, id: Seq<char>, t: int)
    requires
        store_wf(s),
        discard_spec(s, id).1 is Ok,
    ensures
        ({
            let s1 = discard_spec(s, id).0;
            &&& stop_spec(s1, id, t) == (s1, Err::<int, TrackerError>(TrackerError::NotFound))
            &&& discard_spec(s1, id) == (s1, Err::<(), TrackerError>(TrackerError::NotFound))
        }),
{
    assert(contains_id(s, id));
    lemma_remove_erases_id(s, id);
}

/// Aggregation excludes open sessions: a freshly started session changes
/// no level's summed seconds, so it contributes nothing to the reported
/// totals until it is stopped.
pub proof fn lemma_open_session_adds_nothing(
    s: Seq<SessionData>,
    level: Level,
    id: Seq<char>,
    now: int,
    tallied: Level,
)
    ensures
        sum_closed_seconds(start_spec(s, level, id, now), tallied) == sum_closed_seconds(
            s,
            tallied,
        ),
{
    let fresh = SessionData {
        id: id,
        level: level,
        started_at: now,
        ended_at: None,
        duration_seconds: None,
    };
    lemma_sum_push(s, fresh, tallied);
}

} // verus!
