//! The bad-event rate limiter.
//!
//! A remote event that keeps failing verification must not be reprocessed on
//! every resend.  The limiter keeps, per event id, the time of the last
//! attempt and how many attempts there were; an event whose backoff delay has
//! not yet elapsed is rejected without any further verification work.  The
//! delay after `n` failures is `min(24h, 5min * n^2)`.

use vstd::prelude::*;
use vstd::string::StringExecFns;

verus! {

/// One day in milliseconds: the ceiling of every backoff delay.
pub const MAX_BACKOFF_MS: u64 = 86400000;

/// Five minutes in milliseconds: the quadratic backoff base.
pub const BACKOFF_BASE_MS: u64 = 300000;

/// The minimum delay before the next attempt after `tries` failures.
pub open spec fn backoff_delay_ms(tries: nat) -> nat {
    if BACKOFF_BASE_MS * tries * tries <= MAX_BACKOFF_MS {
        (BACKOFF_BASE_MS * tries * tries) as nat
    } else {
        MAX_BACKOFF_MS as nat
    }
}

/// Computes the backoff delay for an attempt count.
pub fn backoff_delay(tries: u32) -> (r: u64)
    ensures
        r == backoff_delay_ms(tries as nat),
{
    if tries >= 17 {
        proof {
            assert(BACKOFF_BASE_MS * (tries as nat) * (tries as nat) > MAX_BACKOFF_MS) by (nonlinear_arith)
                requires
                    tries >= 17,
            ;
        }
        MAX_BACKOFF_MS
    } else {
        let t = tries as u64;
        proof {
            assert(BACKOFF_BASE_MS * t * t <= BACKOFF_BASE_MS * 16 * 16) by (nonlinear_arith)
                requires
                    t <= 16,
            ;
        }
        let d = BACKOFF_BASE_MS * t * t;
        if d <= MAX_BACKOFF_MS {
            d
        } else {
            MAX_BACKOFF_MS
        }
    }
}

/// One record of the table: an event id with its last attempt time and its
/// attempt count.
pub struct BadEventEntry {
    pub event_id: String,
    pub last_attempt_ms: u64,
    pub tries: u32,
}

/// The backoff table, keyed by event id.
pub struct BadEventTable {
    entries: Vec<BadEventEntry>,
}

/// The contents of a sequence of records as a map.
pub open spec fn entries_model(s: Seq<BadEventEntry>) -> Map<Seq<char>, (u64, u32)>
    decreases s.len(),
{
    if s.len() == 0 {
        Map::empty()
    } else {
        entries_model(s.drop_last()).insert(
            s.last().event_id@,
            (s.last().last_attempt_ms, s.last().tries),
        )
    }
}

/// No two records share an event id.
pub open spec fn entries_unique(s: Seq<BadEventEntry>) -> bool {
    forall|i: int, j: int|
        #![trigger s[i].event_id@, s[j].event_id@]
        0 <= i < j < s.len() ==> s[i].event_id@ != s[j].event_id@
}

/// A key is in the model exactly when some record carries it.
proof fn lemma_model_dom(s: Seq<BadEventEntry>, k: Seq<char>)
    ensures
        entries_model(s).contains_key(k) <==> exists|i: int|
            0 <= i < s.len() && #[trigger] s[i].event_id@ == k,
    decreases s.len(),
{
    if s.len() > 0 {
        lemma_model_dom(s.drop_last(), k);
        if s.last().event_id@ == k {
            assert(s[s.len() - 1].event_id@ == k);
        } else if entries_model(s).contains_key(k) {
            let i = choose|i: int| 0 <= i < s.len() - 1 && #[trigger] s.drop_last()[i].event_id@ == k;
            assert(s[i].event_id@ == k);
        } else {
            assert forall|i: int| 0 <= i < s.len() implies #[trigger] s[i].event_id@ != k by {
                if i < s.len() - 1 {
                    assert(s.drop_last()[i].event_id@ == s[i].event_id@);
                }
            }
        }
    }
}

/// With unique ids, each record is what the model holds for its key.
proof fn lemma_model_index(s: Seq<BadEventEntry>, i: int)
    requires
        entries_unique(s),
        0 <= i < s.len(),
    ensures
        entries_model(s).contains_key(s[i].event_id@),
        entries_model(s)[s[i].event_id@] == (s[i].last_attempt_ms, s[i].tries),
    decreases s.len(),
{
    if i == s.len() - 1 {
    } else {
        assert(entries_unique(s.drop_last())) by {
            assert forall|x: int, y: int|
                #![trigger s.drop_last()[x].event_id@, s.drop_last()[y].event_id@]
                0 <= x < y < s.len() - 1 implies s.drop_last()[x].event_id@
                != s.drop_last()[y].event_id@ by {
                assert(s[x].event_id@ != s[y].event_id@);
            }
        }
        lemma_model_index(s.drop_last(), i);
        assert(s.drop_last()[i] == s[i]);
        assert(s[i].event_id@ != s[s.len() - 1].event_id@);
    }
}

/// Replacing a record in place updates the model at its key alone.
proof fn lemma_model_update(s: Seq<BadEventEntry>, i: int, e: BadEventEntry)
    requires
        entries_unique(s),
        0 <= i < s.len(),
        e.event_id@ == s[i].event_id@,
    ensures
        entries_model(s.update(i, e)) =~= entries_model(s).insert(
            e.event_id@,
            (e.last_attempt_ms, e.tries),
        ),
    decreases s.len(),
{
    let t = s.update(i, e);
    if i == s.len() - 1 {
        assert(t.drop_last() =~= s.drop_last());
        assert(t.last() == e);
    } else {
        assert(entries_unique(s.drop_last())) by {
            assert forall|x: int, y: int|
                #![trigger s.drop_last()[x].event_id@, s.drop_last()[y].event_id@]
                0 <= x < y < s.len() - 1 implies s.drop_last()[x].event_id@
                != s.drop_last()[y].event_id@ by {
                assert(s[x].event_id@ != s[y].event_id@);
            }
        }
        lemma_model_update(s.drop_last(), i, e);
        assert(t.drop_last() =~= s.drop_last().update(i, e));
        assert(t.last() == s.last());
        assert(s[i].event_id@ != s[s.len() - 1].event_id@);
    }
}

impl BadEventTable {
    /// The table's contents: event id to (last attempt, attempt count).
    pub closed spec fn view(&self) -> Map<Seq<char>, (u64, u32)> {
        entries_model(self.entries@)
    }

    /// The table's internal well-formedness: one record per event id.
    pub closed spec fn wf(&self) -> bool {
        entries_unique(self.entries@)
    }

    /// An empty table.
    pub fn new() -> (r: BadEventTable)
        ensures
            r.wf(),
            r@ == Map::<Seq<char>, (u64, u32)>::empty(),
    {
        BadEventTable { entries: Vec::new() }
    }

    /// The record stored for an event id, if any.
    pub fn lookup(&self, event_id: &str) -> (r: Option<(u64, u32)>)
        requires
            self.wf(),
        ensures
            match r {
                Some(v) => self@.contains_key(event_id@) && self@[event_id@] == v,
                None => !self@.contains_key(event_id@),
            },
    {
        let n = self.entries.len();
        let mut i: usize = 0;
        while i < n
            invariant
                self.wf(),
                n == self.entries@.len(),
                i <= n,
                forall|j: int| 0 <= j < i ==> #[trigger] self.entries@[j].event_id@ != event_id@,
            decreases n - i,
        {
            if crate::util::str_eq(self.entries[i].event_id.as_str(), event_id) {
                proof {
                    lemma_model_index(self.entries@, i as int);
                }
                return Some((self.entries[i].last_attempt_ms, self.entries[i].tries));
            }
            i = i + 1;
        }
        proof {
            lemma_model_dom(self.entries@, event_id@);
        }
        None
    }

    /// Whether an attempt at this event now must be rejected: the event has a
    /// record whose backoff delay has not yet elapsed.
    pub open spec fn spec_should_skip(
        m: Map<Seq<char>, (u64, u32)>,
        event_id: Seq<char>,
        now_ms: u64,
    ) -> bool {
        m.contains_key(event_id) && now_ms - m[event_id].0 < backoff_delay_ms(m[event_id].1 as nat)
    }

    /// Rejects an event that is still inside its backoff window.
    pub fn should_skip(&self, event_id: &str, now_ms: u64) -> (r: bool)
        requires
            self.wf(),
        ensures
            r == BadEventTable::spec_should_skip(self@, event_id@, now_ms),
    {
        match self.lookup(event_id) {
            Some((last, tries)) => {
                let delay = backoff_delay(tries);
                if now_ms >= last {
                    now_ms - last < delay
                } else {
                    // A clock that ran backwards still counts as "too soon".
                    proof {
                        assert(now_ms - self@[event_id@].0 < 0);
                        assert(backoff_delay_ms(self@[event_id@].1 as nat) >= 0);
                    }
                    true
                }
            },
            None => false,
        }
    }

    /// The position of an event id's record, if it has one.
    fn find_index(&self, event_id: &str) -> (r: Option<usize>)
        ensures
            match r {
                Some(i) => i < self.entries@.len() && self.entries@[i as int].event_id@
                    == event_id@,
                None => forall|j: int|
                    0 <= j < self.entries@.len() ==> #[trigger] self.entries@[j].event_id@
                        != event_id@,
            },
    {
        let n = self.entries.len();
        let mut i: usize = 0;
        while i < n
            invariant
                n == self.entries@.len(),
                i <= n,
                forall|j: int| 0 <= j < i ==> #[trigger] self.entries@[j].event_id@ != event_id@,
            decreases n - i,
        {
            if crate::util::str_eq(self.entries[i].event_id.as_str(), event_id) {
                return Some(i);
            }
            i = i + 1;
        }
        None
    }

    /// Records one more failure for an event id: a fresh record starts at one
    /// attempt; an existing one moves its timestamp and counts one more
    /// attempt, saturating.
    pub fn record_failure(&mut self, event_id: &str, now_ms: u64)
        requires
            old(self).wf(),
        ensures
            final(self).wf(),
            final(self)@ == old(self)@.insert(
                event_id@,
                (
                    now_ms,
                    if old(self)@.contains_key(event_id@) {
                        if old(self)@[event_id@].1 == u32::MAX {
                            u32::MAX
                        } else {
                            (old(self)@[event_id@].1 + 1) as u32
                        }
                    } else {
                        1u32
                    },
                ),
            ),
    {
        match self.find_index(event_id) {
            Some(i) => {
                proof {
                    lemma_model_index(self.entries@, i as int);
                }
                let old_tries = self.entries[i].tries;
                let tries = if old_tries == u32::MAX {
                    u32::MAX
                } else {
                    old_tries + 1
                };
                let entry = BadEventEntry {
                    event_id: String::from_str(event_id),
                    last_attempt_ms: now_ms,
                    tries,
                };
                proof {
                    lemma_model_update(self.entries@, i as int, entry);
                    assert forall|x: int, y: int|
                        #![trigger self.entries@.update(i as int, entry)[x].event_id@, self.entries@.update(i as int, entry)[y].event_id@]
                        0 <= x < y < self.entries@.len() implies self.entries@.update(
                        i as int,
                        entry,
                    )[x].event_id@ != self.entries@.update(i as int, entry)[y].event_id@ by {
                        assert(self.entries@[x].event_id@ != self.entries@[y].event_id@);
                    }
                }
                self.entries.set(i, entry);
            },
            None => {
                proof {
                    lemma_model_dom(self.entries@, event_id@);
                }
                let entry = BadEventEntry {
                    event_id: String::from_str(event_id),
                    last_attempt_ms: now_ms,
                    tries: 1,
                };
                self.entries.push(entry);
                proof {
                    assert(self.entries@.drop_last() =~= old(self).entries@);
                    assert forall|x: int, y: int|
                        #![trigger self.entries@[x].event_id@, self.entries@[y].event_id@]
                        0 <= x < y < self.entries@.len() implies self.entries@[x].event_id@
                        != self.entries@[y].event_id@ by {
                        if y < self.entries@.len() - 1 {
                            assert(old(self).entries@[x].event_id@ != old(
                                self,
                            ).entries@[y].event_id@);
                        }
                    }
                }
            },
        }
    }
}

/// What one recorded failure does to the table's contents, as
/// `record_failure` ensures it.
pub open spec fn spec_record_failure(
    m: Map<Seq<char>, (u64, u32)>,
    event_id: Seq<char>,
    now_ms: u64,
) -> Map<Seq<char>, (u64, u32)> {
    m.insert(
        event_id,
        (
            now_ms,
            if m.contains_key(event_id) {
                if m[event_id].1 == u32::MAX {
                    u32::MAX
                } else {
                    (m[event_id].1 + 1) as u32
                }
            } else {
                1u32
            },
        ),
    )
}

/// The table after a run of consecutive failures for one event id, one per
/// listed timestamp.
pub open spec fn spec_failures(
    m: Map<Seq<char>, (u64, u32)>,
    event_id: Seq<char>,
    times: Seq<u64>,
) -> Map<Seq<char>, (u64, u32)>
    decreases times.len(),
{
    if times.len() == 0 {
        m
    } else {
        spec_record_failure(spec_failures(m, event_id, times.drop_last()), event_id, times.last())
    }
}

/// After `n` consecutive failures for one event id, the table counts exactly
/// `n` attempts, timed at the last failure, and the minimum delay before the
/// next attempt is accepted equals `min(24h, 5min * n^2)`: an attempt
/// strictly earlier than that is skipped, one at or past it is let through.
pub proof fn lemma_backoff_policy(
    m: Map<Seq<char>, (u64, u32)>,
    event_id: Seq<char>,
    times: Seq<u64>,
    now_ms: u64,
)
    requires
        !m.contains_key(event_id),
        1 <= times.len() <= u32::MAX,
    ensures
        ({
            let after = spec_failures(m, event_id, times);
            &&& after.contains_key(event_id)
            &&& after[event_id] == (times.last(), times.len() as u32)
            &&& (BadEventTable::spec_should_skip(after, event_id, now_ms) <==> now_ms
                - times.last() < backoff_delay_ms(times.len()))
            &&& backoff_delay_ms(times.len()) == if BACKOFF_BASE_MS * times.len() * times.len()
                <= MAX_BACKOFF_MS {
                BACKOFF_BASE_MS * times.len() * times.len()
            } else {
                MAX_BACKOFF_MS as int
            }
        }),
    decreases times.len(),
{
    if times.len() == 1 {
        assert(spec_failures(m, event_id, times.drop_last()) == m);
    } else {
        lemma_backoff_policy(m, event_id, times.drop_last(), now_ms);
    }
}

} // verus!
