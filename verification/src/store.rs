use vstd::prelude::*;
use crate::level::Level;
use crate::session::{Session, SessionData};

verus! {

/// Does some session in `s` carry the given id?
pub open spec fn contains_id(s: Seq<SessionData>, id: Seq<char>) -> bool {
    exists|i: int| 0 <= i < s.len() && s[i].id == id
}

/// The index of the session carrying the id; unique when the store is well
/// formed.
pub open spec fn index_of_id(s: Seq<SessionData>, id: Seq<char>) -> int {
    choose|i: int| 0 <= i < s.len() && s[i].id == id
}

/// Well-formedness of a store: every record satisfies the session invariant
/// and no two records share an id.
pub open spec fn store_wf(s: Seq<SessionData>) -> bool {
    &&& forall|i: int| 0 <= i < s.len() ==> (#[trigger] s[i]).wf()
    &&& forall|i: int, j: int|
        #![trigger s[i].id, s[j].id]
        0 <= i < s.len() && 0 <= j < s.len() && i != j ==> s[i].id != s[j].id
}

/// The summed seconds of the closed sessions of `level`; open sessions
/// contribute nothing.
pub open spec fn sum_closed_seconds(s: Seq<SessionData>, level: Level) -> int
    decreases s.len(),
{
    if s.len() == 0 {
        0
    } else {
        sum_closed_seconds(s.drop_last(), level) + s.last().contributes(level)
    }
}

/// Appending a session adds exactly its contribution to each level's sum.
pub proof fn lemma_sum_push(s: Seq<SessionData>, x: SessionData, level: Level)
    ensures
        sum_closed_seconds(s.push(x), level) == sum_closed_seconds(s, level) + x.contributes(
            level,
        ),
{
    assert(s.push(x).drop_last() =~= s);
    assert(s.push(x).last() == x);
}

/// One step of summing a prefix: extending the prefix by the record at `i`
/// adds exactly that record's contribution.
pub proof fn lemma_sum_take_step(s: Seq<SessionData>, level: Level, i: int)
    requires
        0 <= i < s.len(),
    ensures
        sum_closed_seconds(s.take(i + 1), level) == sum_closed_seconds(s.take(i), level)
            + s[i].contributes(level),
{
    assert(s.take(i + 1).drop_last() =~= s.take(i));
    assert(s.take(i + 1).last() == s[i]);
}

/// Closing one session preserves store well-formedness: ids are untouched
/// and the closed record keeps the session invariant when its duration is
/// the elapsed time.
pub proof fn lemma_update_closed_preserves_wf(s: Seq<SessionData>, i: int, now: int)
    requires
        store_wf(s),
        0 <= i < s.len(),
        i64::MIN <= now <= i64::MAX,
        now >= s[i].started_at,
    ensures
        store_wf(s.update(i, s[i].closed_at(now))),
{
    let s1 = s.update(i, s[i].closed_at(now));
    assert forall|a: int| 0 <= a < s1.len() implies (#[trigger] s1[a]).wf() by {
        if a != i {
            assert(s1[a] == s[a]);
        }
    }
    assert forall|a: int, b: int|
        #![trigger s1[a].id, s1[b].id]
        0 <= a < s1.len() && 0 <= b < s1.len() && a != b implies s1[a].id != s1[b].id by {
        assert(s1[a].id == s[a].id);
        assert(s1[b].id == s[b].id);
    }
}

/// Removing one session preserves store well-formedness.
pub proof fn lemma_remove_preserves_wf(s: Seq<SessionData>, i: int)
    requires
        store_wf(s),
        0 <= i < s.len(),
    ensures
        store_wf(s.remove(i)),
{
    let s1 = s.remove(i);
    assert forall|a: int| 0 <= a < s1.len() implies (#[trigger] s1[a]).wf() by {
        if a < i {
            assert(s1[a] == s[a]);
        } else {
            assert(s1[a] == s[a + 1]);
        }
    }
    assert forall|a: int, b: int|
        #![trigger s1[a].id, s1[b].id]
        0 <= a < s1.len() && 0 <= b < s1.len() && a != b implies s1[a].id != s1[b].id by {
        let a0: int = if a < i {
            a
        } else {
            a + 1
        };
        let b0: int = if b < i {
            b
        } else {
            b + 1
        };
        assert(s1[a].id == s[a0].id);
        assert(s1[b].id == s[b0].id);
    }
}

/// After removing the one session that carries `id`, no session carries it.
pub proof fn lemma_remove_erases_id(s: Seq<SessionData>, id: Seq<char>)
    requires
        store_wf(s),
        contains_id(s, id),
    ensures
        !contains_id(s.remove(index_of_id(s, id)), id),
{
    let i = index_of_id(s, id);
    assert(0 <= i < s.len() && s[i].id == id);
    let s1 = s.remove(i);
    assert forall|a: int| 0 <= a < s1.len() implies (#[trigger] s1[a]).id != id by {
        if a < i {
            assert(s1[a] == s[a]);
        } else {
            assert(s1[a] == s[a + 1]);
        }
    }
}

/// Summed seconds of the closed sessions, one total per level.
#[derive(Clone, Copy, Debug, PartialEq, Eq, Structural)]
pub struct LevelSums {
    pub b1_plus: u128,
    pub b2: u128,
}

/// The session store: the durable record of every study session, here an
/// in-memory collection of unique-id session records.
pub struct SessionStore {
    sessions: Vec<Session>,
}

impl View for SessionStore {
    type V = Seq<SessionData>;

    closed spec fn view(&self) -> Seq<SessionData> {
        self.sessions@.map_values(|s: Session| s@)
    }
}

impl SessionStore {
    /// An empty store.
    pub fn new() -> (r: SessionStore)
        ensures
            r@.len() == 0,
            store_wf(r@),
    {
        SessionStore { sessions: Vec::new() }
    }

    /// Durably record a new open session. The caller guarantees a fresh id.
    pub fn insert(&mut self, session: Session)
        requires
            store_wf(old(self)@),
            session@.wf(),
            session@.is_open(),
            !contains_id(old(self)@, session.id@),
        ensures
            final(self)@ == old(self)@.push(session@),
            store_wf(final(self)@),
    {
        proof {
            let s0 = self@;
            let s1 = s0.push(session@);
            assert forall|i: int, j: int|
                #![trigger s1[i].id, s1[j].id]
                0 <= i < s1.len() && 0 <= j < s1.len() && i != j implies s1[i].id != s1[j].id by {
                if i < s0.len() && j < s0.len() {
                    assert(s0[i].id != s0[j].id);
                } else if i == s0.len() {
                    assert(s0[j].id != session.id@);
                } else {
                    assert(s0[i].id != session.id@);
                }
            }
        }
        self.sessions.push(session);
        proof {
            assert(self@ =~= old(self)@.push(session@));
        }
    }

    /// Fetch a session by id, or report that none carries it.
    pub fn find_by_id(&self, id: &String) -> (r: Option<&Session>)
        requires
            store_wf(self@),
        ensures
            (match r {
                Some(sess) => contains_id(self@, id@) && sess@ == self@[index_of_id(self@, id@)],
                None => !contains_id(self@, id@),
            }),
    {
        let n = self.sessions.len();
        let mut i: usize = 0;
        while i < n
            invariant
                store_wf(self@),
                n == self@.len(),
                i <= n,
                forall|j: int| 0 <= j < i ==> (#[trigger] self@[j].id) != id@,
            decreases n - i,
        {
            if self.sessions[i].id.eq(id) {
                proof {
                    assert(self@[i as int].id == id@);
                    assert(contains_id(self@, id@));
                    let k = index_of_id(self@, id@);
                    assert(self@[k].id == id@);
                    assert(k == i as int);
                }
                return Some(&self.sessions[i]);
            }
            i += 1;
        }
        None
    }

    /// The atomic conditional update behind `stop`: close the session with
    /// the given id only if it is still open, and report how many records
    /// changed (1, or 0 when the id is unknown or the session is closed).
    #[verifier::loop_isolation(false)]
    pub fn update_on_stop(&mut self, id: &String, ended_at: i64, duration_seconds: u64) -> (affected:
        u64)
        requires
            store_wf(old(self)@),
            (contains_id(old(self)@, id@) && old(self)@[index_of_id(old(self)@, id@)].is_open())
                ==> duration_seconds as int == ended_at as int - old(self)@[index_of_id(
                old(self)@,
                id@,
            )].started_at,
        ensures
            store_wf(final(self)@),
            (if contains_id(old(self)@, id@) && old(self)@[index_of_id(
                old(self)@,
                id@,
            )].is_open() {
                affected == 1 && final(self)@ == old(self)@.update(
                    index_of_id(old(self)@, id@),
                    old(self)@[index_of_id(old(self)@, id@)].closed_at(ended_at as int),
                )
            } else {
                affected == 0 && final(self)@ == old(self)@
            }),
    {
        let n = self.sessions.len();
        let mut i: usize = 0;
        while i < n
            invariant
                self@ == old(self)@,
                store_wf(self@),
                n == self@.len(),
                i <= n,
                forall|j: int| 0 <= j < i ==> (#[trigger] self@[j].id) != id@,
            decreases n - i,
        {
            if self.sessions[i].id.eq(id) {
                proof {
                    assert(self@[i as int].id == id@);
                    assert(contains_id(self@, id@));
                    let k = index_of_id(self@, id@);
                    assert(self@[k].id == id@);
                    assert(k == i as int);
                }
                if self.sessions[i].ended_at.is_none() {
                    proof {
                        assert(old(self)@[i as int].is_open());
                        assert(contains_id(old(self)@, id@));
                        assert(index_of_id(old(self)@, id@) == i as int);
                        assert(duration_seconds as int == ended_at as int - old(self)@[i as int].started_at);
                    }
                    let mut sess = self.sessions.remove(i);
                    proof {
                        assert(sess@ == old(self)@[i as int]);
                    }
                    sess.ended_at = Some(ended_at);
                    sess.duration_seconds = Some(duration_seconds);
                    self.sessions.insert(i, sess);
                    proof {
                        let target = old(self)@[i as int];
                        assert(duration_seconds as int == ended_at as int - target.started_at);
                        assert(sess@ == target.closed_at(ended_at as int));
                        assert(self@ =~= old(self)@.update(i as int, sess@));
                        lemma_update_closed_preserves_wf(old(self)@, i as int, ended_at as int);
                    }
                    return 1;
                } else {
                    proof {
                        assert(!old(self)@[i as int].is_open());
                    }
                    return 0;
                }
            }
            i += 1;
        }
        0
    }

    /// Permanently remove the session with the given id, reporting how many
    /// records were removed (1, or 0 when the id is unknown).
    pub fn delete(&mut self, id: &String) -> (affected: u64)
        requires
            store_wf(old(self)@),
        ensures
            store_wf(final(self)@),
            (if contains_id(old(self)@, id@) {
                affected == 1 && final(self)@ == old(self)@.remove(index_of_id(old(self)@, id@))
            } else {
                affected == 0 && final(self)@ == old(self)@
            }),
    {
        let n = self.sessions.len();
        let mut i: usize = 0;
        while i < n
            invariant
                self@ == old(self)@,
                store_wf(self@),
                n == self@.len(),
                i <= n,
                forall|j: int| 0 <= j < i ==> (#[trigger] self@[j].id) != id@,
            decreases n - i,
        {
            if self.sessions[i].id.eq(id) {
                proof {
                    assert(self@[i as int].id == id@);
                    assert(contains_id(self@, id@));
                    let k = index_of_id(self@, id@);
                    assert(self@[k].id == id@);
                    assert(k == i as int);
                }
                self.sessions.remove(i);
                proof {
                    assert(self@ =~= old(self)@.remove(i as int));
                    lemma_remove_preserves_wf(old(self)@, i as int);
                }
                return 1;
            }
            i += 1;
        }
        0
    }

    /// The aggregate query behind the stats: for each level, the sum of
    /// `duration_seconds` over the closed sessions of that level.
    pub fn sum_duration_by_level(&self) -> (r: LevelSums)
        ensures
            r.b1_plus as int == sum_closed_seconds(self@, Level::B1Plus),
            r.b2 as int == sum_closed_seconds(self@, Level::B2),
    {
        let n = self.sessions.len();
        let mut b1: u128 = 0;
        let mut b2: u128 = 0;
        let mut i: usize = 0;
        while i < n
            invariant
                n == self@.len(),
                i <= n,
                b1 as int == sum_closed_seconds(self@.take(i as int), Level::B1Plus),
                b2 as int == sum_closed_seconds(self@.take(i as int), Level::B2),
                b1 as int <= i * 0xFFFF_FFFF_FFFF_FFFF,
                b2 as int <= i * 0xFFFF_FFFF_FFFF_FFFF,
            decreases n - i,
        {
            let d: u64 = match self.sessions[i].duration_seconds {
                Some(d) => d,
                None => 0,
            };
            match self.sessions[i].level {
                Level::B1Plus => {
                    b1 = b1 + d as u128;
                },
                Level::B2 => {
                    b2 = b2 + d as u128;
                },
            }
            proof {
                lemma_sum_take_step(self@, Level::B1Plus, i as int);
                lemma_sum_take_step(self@, Level::B2, i as int);
            }
            i += 1;
        }
        proof {
            assert(self@.take(n as int) =~= self@);
        }
        LevelSums { b1_plus: b1, b2: b2 }
    }
}

} // verus!
