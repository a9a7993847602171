use vstd::prelude::*;
use crate::errors::TrackerError;
use crate::level::{parse_level, parse_level_spec, Level, B1_PLUS_GOAL_HUNDREDTHS, B2_GOAL_HUNDREDTHS};
use crate::rounding::{minutes_of_seconds, round_hundredths_of_hour, round_minutes};
use crate::session::{Session, SessionData};
use crate::stats::{stats_from_sums, Stats};
use crate::store::{contains_id, index_of_id, store_wf, sum_closed_seconds, SessionStore};

verus! {

/// The state after starting a session: one new open record, appended.
pub open spec fn start_spec(s: Seq<SessionData>, level: Level, id: Seq<char>, now: int) -> Seq<
    SessionData,
> {
    s.push(
        SessionData { id: id, level: level, started_at: now, ended_at: None, duration_seconds: None },
    )
}

/// The state and result of stopping a session: closing the open record
/// with that id and reporting its rounded minutes, or one of the errors,
/// which leave the state untouched.
pub open spec fn stop_spec(s: Seq<SessionData>, id: Seq<char>, now: int) -> (Seq<SessionData>,
    Result<int, TrackerError>) {
    if !contains_id(s, id) {
        (s, Err(TrackerError::NotFound))
    } else {
        let i = index_of_id(s, id);
        if !s[i].is_open() {
            (s, Err(TrackerError::AlreadyStopped))
        } else if now < s[i].started_at {
            (s, Err(TrackerError::ClockRegression))
        } else {
            (s.update(i, s[i].closed_at(now)), Ok(round_minutes(now - s[i].started_at)))
        }
    }
}

/// The state and result of discarding a session: the record with that id
/// is removed for good, or the id is unknown and nothing changes.
pub open spec fn discard_spec(s: Seq<SessionData>, id: Seq<char>) -> (Seq<SessionData>, Result<
    (),
    TrackerError,
>) {
    if contains_id(s, id) {
        (s.remove(index_of_id(s, id)), Ok(()))
    } else {
        (s, Err(TrackerError::NotFound))
    }
}

/// What a successful stop persists and reports.
#[derive(Clone, Copy, Debug, PartialEq, Eq, Structural)]
pub struct StopUpdate {
    /// The wall-clock end to record.
    pub ended_at: i64,
    /// The elapsed whole seconds to record.
    pub duration_seconds: u64,
    /// The rounded minutes to report to the caller.
    pub duration_minutes: u64,
}

/// The stop decision alone, free of any state: given the record the store
/// returned for an id (or none) and the current time, either the update to
/// persist and the minutes to report, or the error to surface.
pub fn stop_decision(found: Option<&Session>, now: i64) -> (r: Result<StopUpdate, TrackerError>)
    ensures
        (match found {
            None => r == Err::<StopUpdate, TrackerError>(TrackerError::NotFound),
            Some(sess) => {
                if !sess@.is_open() {
                    r == Err::<StopUpdate, TrackerError>(TrackerError::AlreadyStopped)
                } else if now < sess.started_at {
                    r == Err::<StopUpdate, TrackerError>(TrackerError::ClockRegression)
                } else {
                    r matches Ok(u) && u.ended_at == now && u.duration_seconds as int == now as int
                        - sess.started_at as int && u.duration_minutes as int == round_minutes(
                        now as int - sess.started_at as int,
                    )
                }
            },
        }),
{
    let sess = match found {
        None => {
            return Err(TrackerError::NotFound);
        },
        Some(s) => s,
    };
    if sess.ended_at.is_some() {
        return Err(TrackerError::AlreadyStopped);
    }
    if now < sess.started_at {
        return Err(TrackerError::ClockRegression);
    }
    let wide: i128 = now as i128 - sess.started_at as i128;
    proof {
        assert(0 <= wide <= u64::MAX);
    }
    let duration: u64 = wide as u64;
    let minutes = minutes_of_seconds(duration);
    Ok(StopUpdate { ended_at: now, duration_seconds: duration, duration_minutes: minutes })
}

/// The discard decision: a delete that removed nothing means the id was
/// unknown; anything removed means the discard succeeded.
pub fn discard_decision(affected: u64) -> (r: Result<(), TrackerError>)
    ensures
        r == (if affected == 0 {
            Err::<(), TrackerError>(TrackerError::NotFound)
        } else {
            Ok::<(), TrackerError>(())
        }),
{
    if affected == 0 {
        Err(TrackerError::NotFound)
    } else {
        Ok(())
    }
}

/// The session lifecycle manager: enforces the start -> stop / start ->
/// discard state machine and the duration and rounding rules over a
/// session store, and derives the reported stats.
pub struct Tracker {
    store: SessionStore,
}

impl View for Tracker {
    type V = Seq<SessionData>;

    closed spec fn view(&self) -> Seq<SessionData> {
        self.store@
    }
}

impl Tracker {
    /// A tracker over an empty store.
    pub fn new() -> (r: Tracker)
        ensures
            r@.len() == 0,
            store_wf(r@),
    {
        Tracker { store: SessionStore::new() }
    }

    /// Starts a session of the named level at the given time, under the
    /// given fresh id: rejects an unrecognized level name with
    /// `InvalidLevel` and an id already in use with `Store`, both without
    /// any state change; otherwise appends one open record and returns the
    /// id.
    pub fn start_at(&mut self, level_name: &str, id: String, now: i64) -> (r: Result<
        String,
        TrackerError,
    >)
        requires
            store_wf(old(self)@),
        ensures
            store_wf(final(self)@),
            (match parse_level_spec(level_name@) {
                Err(e) => r == Err::<String, TrackerError>(e) && final(self)@ == old(self)@,
                Ok(level) => {
                    if contains_id(old(self)@, id@) {
                        r == Err::<String, TrackerError>(TrackerError::Store) && final(self)@
                            == old(self)@
                    } else {
                        &&& final(self)@ == start_spec(old(self)@, level, id@, now as int)
                        &&& r matches Ok(rid) && rid@ == id@
                    }
                },
            }),
    {
        let level = match parse_level(level_name) {
            Ok(l) => l,
            Err(e) => {
                return Err(e);
            },
        };
        if self.store.find_by_id(&id).is_some() {
            return Err(TrackerError::Store);
        }
        let session = Session {
            id: id.clone(),
            level: level,
            started_at: now,
            ended_at: None,
            duration_seconds: None,
        };
        self.store.insert(session);
        Ok(id)
    }

    /// Stops the session with the given id at the given time: exactly the
    /// transition and result of `stop_spec`. The check and the update are
    /// one guarded store operation, so a lost race shows up as
    /// `AlreadyStopped`, never as a corrupted duration.
    pub fn stop_at(&mut self, id: &String, now: i64) -> (r: Result<u64, TrackerError>)
        requires
            store_wf(old(self)@),
        ensures
            store_wf(final(self)@),
            final(self)@ == stop_spec(old(self)@, id@, now as int).0,
            (match (r, stop_spec(old(self)@, id@, now as int).1) {
                (Ok(m), Ok(ms)) => m as int == ms,
                (Err(e), Err(es)) => e == es,
                _ => false,
            }),
    {
        let found = self.store.find_by_id(id);
        let update = match stop_decision(found, now) {
            Ok(u) => u,
            Err(e) => {
                return Err(e);
            },
        };
        self.store.update_on_stop(id, update.ended_at, update.duration_seconds);
        Ok(update.duration_minutes)
    }

    /// Discards the session with the given id, open or closed: exactly the
    /// transition and result of `discard_spec`. A removed session never
    /// counts toward the stats again.
    pub fn discard(&mut self, id: &String) -> (r: Result<(), TrackerError>)
        requires
            store_wf(old(self)@),
        ensures
            store_wf(final(self)@),
            final(self)@ == discard_spec(old(self)@, id@).0,
            r == discard_spec(old(self)@, id@).1,
    {
        let affected = self.store.delete(id);
        discard_decision(affected)
    }

    /// The reported stats: per-level and combined hours in hundredths,
    /// derived from the summed seconds of closed sessions only, plus the
    /// fixed goal constants. The bounds on the sums are what makes the
    /// figures fit a machine word.
    pub fn get_stats(&self) -> (r: Stats)
        requires
            store_wf(self@),
            sum_closed_seconds(self@, Level::B1Plus) <= u64::MAX,
            sum_closed_seconds(self@, Level::B2) <= u64::MAX,
        ensures
            r.b1_plus_hundredths as int == round_hundredths_of_hour(
                sum_closed_seconds(self@, Level::B1Plus),
            ),
            r.b2_hundredths as int == round_hundredths_of_hour(
                sum_closed_seconds(self@, Level::B2),
            ),
            r.total_hundredths as int == round_hundredths_of_hour(
                sum_closed_seconds(self@, Level::B1Plus) + sum_closed_seconds(self@, Level::B2),
            ),
            r.b1_plus_goal_hundredths == B1_PLUS_GOAL_HUNDREDTHS,
            r.b2_goal_hundredths == B2_GOAL_HUNDREDTHS,
    {
        let sums = self.store.sum_duration_by_level();
        stats_from_sums(sums.b1_plus as u64, sums.b2 as u64)
    }

    /// Starts a session of the named level now, under a freshly generated
    /// id. The id and the clock reading are drawn outside the verified
    /// code, so the contract says what holds whatever they were: either
    /// the level name was rejected, or one open record was appended,
    /// started at some machine-representable time. A `Store` error can
    /// only mean the drawn id collided, so it is possible only where the
    /// store already holds a 36-character id; on any other store, a valid
    /// level is owed success.
    pub fn start(&mut self, level_name: &str) -> (r: Result<String, TrackerError>)
        requires
            store_wf(old(self)@),
        ensures
            store_wf(final(self)@),
            (match parse_level_spec(level_name@) {
                Err(e) => r == Err::<String, TrackerError>(e) && final(self)@ == old(self)@,
                Ok(level) => (match r {
                    Ok(rid) => rid@.len() == 36 && !contains_id(old(self)@, rid@) && (exists|
                        now: int,
                    |
                        i64::MIN <= now <= i64::MAX && final(self)@ == start_spec(
                            old(self)@,
                            level,
                            rid@,
                            now,
                        )),
                    Err(e) => e == TrackerError::Store && final(self)@ == old(self)@ && (exists|
                        i: int,
                    | 0 <= i < old(self)@.len() && old(self)@[i].id.len() == 36),
                }),
            }),
    {
        let id = fresh_session_id();
        let now = now_unix_seconds();
        let ghost id_view: Seq<char> = id@;
        let ghost t: int = now as int;
        let r = self.start_at(level_name, id, now);
        proof {
            if parse_level_spec(level_name@) is Ok && r is Ok {
                let level = parse_level_spec(level_name@)->Ok_0;
                let rid = r->Ok_0;
                assert(final(self)@ == start_spec(old(self)@, level, rid@, t));
            }
            if parse_level_spec(level_name@) is Ok && r is Err {
                assert(contains_id(old(self)@, id_view));
                let k = index_of_id(old(self)@, id_view);
                assert(old(self)@[k].id == id_view);
                assert(old(self)@[k].id.len() == 36);
            }
        }
        r
    }

    /// Stops the session with the given id now. The clock reading is drawn
    /// outside the verified code, so the contract says what holds whatever
    /// it was: the transition and result of `stop_spec` at some
    /// machine-representable time.
    pub fn stop(&mut self, id: &String) -> (r: Result<u64, TrackerError>)
        requires
            store_wf(old(self)@),
        ensures
            store_wf(final(self)@),
            (exists|now: int|
                i64::MIN <= now <= i64::MAX && final(self)@ == stop_spec(old(self)@, id@, now).0 && (
                match (r, stop_spec(old(self)@, id@, now).1) {
                    (Ok(m), Ok(ms)) => m as int == ms,
                    (Err(e), Err(es)) => e == es,
                    _ => false,
                })),
    {
        let now = now_unix_seconds();
        let ghost t: int = now as int;
        let r = self.stop_at(id, now);
        proof {
            assert(final(self)@ == stop_spec(old(self)@, id@, t).0);
        }
        r
    }
}

/// Relies on uuid's `Uuid::new_v4` and its hyphenated `Display` form: a
/// freshly generated identifier rendered as 36 characters.
#[verifier::external_body]
fn fresh_session_id() -> (r: String)
    ensures
        r@.len() == 36,
{
    uuid::Uuid::new_v4().to_string()
}

/// Relies on chrono's `Utc::now`: the current wall clock, reduced to whole
/// seconds since the Unix epoch. Nothing can be promised of a clock
/// reading, so this carries no contract.
#[verifier::external_body]
fn now_unix_seconds() -> i64 {
    chrono::Utc::now().timestamp()
}

} // verus!
