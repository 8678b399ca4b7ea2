//! The state admission bridge.
//!
//! A `send_join` response carries the room's state and auth chain as two
//! unordered lists of raw events.  Each is validated independently and kept
//! as an outlier; validation failures skip the one event, never the whole
//! snapshot.  The accepted state events fold into a snapshot mapping
//! (event type, state key) to event id.  Admission then happens in a fixed
//! order: the pre-join state is saved and forced before the join event is
//! appended, and the post-join state is published only after the append, so
//! no observer ever sees the join event without the state that explains it,
//! nor a current state naming the room before the join exists.

use vstd::prelude::*;
use vstd::string::StringExecFns;

use crate::crypto;
use crate::errors::EngineError;
use crate::json::{doc_model, json_str, CanonicalDoc, JsonAbs};
use crate::limiter::BadEventTable;
use crate::room_version::RoomVersion;
use crate::signer::SignedEvent;
use crate::validator::{spec_validate, spec_validate_limiter};

verus! {

/// One resolved state entry: (event type, state key) naming an event.
pub struct SnapshotEntry {
    pub event_type: String,
    pub state_key: String,
    pub event_id: String,
}

/// The resolved state before a join: (event type, state key) to event id.
pub struct StateSnapshot {
    entries: Vec<SnapshotEntry>,
}

/// The contents of a sequence of snapshot entries as a map.
pub open spec fn snapshot_model(s: Seq<SnapshotEntry>) -> Map<(Seq<char>, Seq<char>), Seq<char>>
    decreases s.len(),
{
    if s.len() == 0 {
        Map::empty()
    } else {
        snapshot_model(s.drop_last()).insert(
            (s.last().event_type@, s.last().state_key@),
            s.last().event_id@,
        )
    }
}

/// No two entries share an (event type, state key) pair.
pub open spec fn snapshot_unique(s: Seq<SnapshotEntry>) -> bool {
    forall|i: int, j: int|
        #![trigger s[i].event_type@, s[j].event_type@]
        0 <= i < j < s.len() ==> (s[i].event_type@, s[i].state_key@) != (
            s[j].event_type@,
            s[j].state_key@,
        )
}

/// A pair is in the model exactly when some entry carries it.
proof fn lemma_snapshot_dom(s: Seq<SnapshotEntry>, k: (Seq<char>, Seq<char>))
    ensures
        snapshot_model(s).contains_key(k) <==> exists|i: int|
            0 <= i < s.len() && (#[trigger] s[i].event_type@, s[i].state_key@) == k,
    decreases s.len(),
{
    if s.len() > 0 {
        lemma_snapshot_dom(s.drop_last(), k);
        if (s.last().event_type@, s.last().state_key@) == k {
            assert((s[s.len() - 1].event_type@, s[s.len() - 1].state_key@) == k);
        } else if snapshot_model(s).contains_key(k) {
            let i = choose|i: int|
                0 <= i < s.len() - 1 && (#[trigger] s.drop_last()[i].event_type@, s.drop_last()[i].state_key@)
                    == k;
            assert((s[i].event_type@, s[i].state_key@) == k);
        } else {
            assert forall|i: int|
                0 <= i < s.len() implies (#[trigger] s[i].event_type@, s[i].state_key@) != k by {
                if i < s.len() - 1 {
                    assert(s.drop_last()[i] == s[i]);
                }
            }
        }
    }
}

/// With unique pairs, each entry is what the model holds for its pair.
proof fn lemma_snapshot_index(s: Seq<SnapshotEntry>, i: int)
    requires
        snapshot_unique(s),
        0 <= i < s.len(),
    ensures
        snapshot_model(s).contains_key((s[i].event_type@, s[i].state_key@)),
        snapshot_model(s)[(s[i].event_type@, s[i].state_key@)] == s[i].event_id@,
    decreases s.len(),
{
    if i < s.len() - 1 {
        assert(snapshot_unique(s.drop_last())) by {
            assert forall|x: int, y: int|
                #![trigger s.drop_last()[x].event_type@, s.drop_last()[y].event_type@]
                0 <= x < y < s.len() - 1 implies (s.drop_last()[x].event_type@, s.drop_last()[x].state_key@)
                != (s.drop_last()[y].event_type@, s.drop_last()[y].state_key@) by {
                assert(s.drop_last()[x] == s[x] && s.drop_last()[y] == s[y]);
                assert((s[x].event_type@, s[x].state_key@) != (s[y].event_type@, s[y].state_key@));
            }
        }
        lemma_snapshot_index(s.drop_last(), i);
        assert(s.drop_last()[i] == s[i]);
        assert((s[i].event_type@, s[i].state_key@) != (s[s.len() - 1].event_type@, s[s.len() - 1].state_key@));
    }
}

/// Replacing an entry in place updates the model at its pair alone.
proof fn lemma_snapshot_update(s: Seq<SnapshotEntry>, i: int, e: SnapshotEntry)
    requires
        snapshot_unique(s),
        0 <= i < s.len(),
        e.event_type@ == s[i].event_type@,
        e.state_key@ == s[i].state_key@,
    ensures
        snapshot_model(s.update(i, e)) =~= snapshot_model(s).insert(
            (e.event_type@, e.state_key@),
            e.event_id@,
        ),
    decreases s.len(),
{
    let t = s.update(i, e);
    if i == s.len() - 1 {
        assert(t.drop_last() =~= s.drop_last());
        assert(t.last() == e);
    } else {
        assert(snapshot_unique(s.drop_last())) by {
            assert forall|x: int, y: int|
                #![trigger s.drop_last()[x].event_type@, s.drop_last()[y].event_type@]
                0 <= x < y < s.len() - 1 implies (s.drop_last()[x].event_type@, s.drop_last()[x].state_key@)
                != (s.drop_last()[y].event_type@, s.drop_last()[y].state_key@) by {
                assert(s.drop_last()[x] == s[x] && s.drop_last()[y] == s[y]);
                assert((s[x].event_type@, s[x].state_key@) != (s[y].event_type@, s[y].state_key@));
            }
        }
        lemma_snapshot_update(s.drop_last(), i, e);
        assert(t.drop_last() =~= s.drop_last().update(i, e));
        assert(t.last() == s.last());
        assert((s[i].event_type@, s[i].state_key@) != (s[s.len() - 1].event_type@, s[s.len() - 1].state_key@));
    }
}

impl StateSnapshot {
    /// The snapshot's contents.
    pub closed spec fn view(&self) -> Map<(Seq<char>, Seq<char>), Seq<char>> {
        snapshot_model(self.entries@)
    }

    /// One entry per (event type, state key) pair.
    pub closed spec fn wf(&self) -> bool {
        snapshot_unique(self.entries@)
    }

    /// An empty snapshot.
    pub fn new() -> (r: StateSnapshot)
        ensures
            r.wf(),
            r@ == Map::<(Seq<char>, Seq<char>), Seq<char>>::empty(),
    {
        StateSnapshot { entries: Vec::new() }
    }

    /// The position of a pair's entry, if it has one.
    fn find_index(&self, event_type: &str, state_key: &str) -> (r: Option<usize>)
        ensures
            match r {
                Some(i) => i < self.entries@.len() && self.entries@[i as int].event_type@
                    == event_type@ && self.entries@[i as int].state_key@ == state_key@,
                None => forall|j: int|
                    0 <= j < self.entries@.len() ==> (#[trigger] self.entries@[j].event_type@, self.entries@[j].state_key@)
                        != (event_type@, state_key@),
            },
    {
        let n = self.entries.len();
        let mut i: usize = 0;
        while i < n
            invariant
                n == self.entries@.len(),
                i <= n,
                forall|j: int|
                    0 <= j < i ==> (#[trigger] self.entries@[j].event_type@, self.entries@[j].state_key@)
                        != (event_type@, state_key@),
            decreases n - i,
        {
            if crate::util::str_eq(self.entries[i].event_type.as_str(), event_type)
                && crate::util::str_eq(self.entries[i].state_key.as_str(), state_key) {
                return Some(i);
            }
            i = i + 1;
        }
        None
    }

    /// Maps a state pair to an event id; a later write to the same pair wins.
    pub fn insert(&mut self, event_type: &str, state_key: &str, event_id: &str)
        requires
            old(self).wf(),
        ensures
            final(self).wf(),
            final(self)@ == old(self)@.insert((event_type@, state_key@), event_id@),
    {
        let entry = SnapshotEntry {
            event_type: String::from_str(event_type),
            state_key: String::from_str(state_key),
            event_id: String::from_str(event_id),
        };
        match self.find_index(event_type, state_key) {
            Some(i) => {
                proof {
                    lemma_snapshot_update(self.entries@, i as int, entry);
                    assert forall|x: int, y: int|
                        #![trigger self.entries@.update(i as int, entry)[x].event_type@, self.entries@.update(i as int, entry)[y].event_type@]
                        0 <= x < y < self.entries@.len() implies (self.entries@.update(
                        i as int,
                        entry,
                    )[x].event_type@, self.entries@.update(i as int, entry)[x].state_key@) != (
                    self.entries@.update(i as int, entry)[y].event_type@, self.entries@.update(
                        i as int,
                        entry,
                    )[y].state_key@) by {
                        assert((self.entries@[x].event_type@, self.entries@[x].state_key@) != (
                        self.entries@[y].event_type@, self.entries@[y].state_key@));
                    }
                }
                self.entries.set(i, entry);
            },
            None => {
                proof {
                    lemma_snapshot_dom(self.entries@, (event_type@, state_key@));
                }
                self.entries.push(entry);
                proof {
                    assert(self.entries@.drop_last() =~= old(self).entries@);
                    assert forall|x: int, y: int|
                        #![trigger self.entries@[x].event_type@, self.entries@[y].event_type@]
                        0 <= x < y < self.entries@.len() implies (self.entries@[x].event_type@, self.entries@[x].state_key@)
                        != (self.entries@[y].event_type@, self.entries@[y].state_key@) by {
                        if y < self.entries@.len() - 1 {
                            assert((old(self).entries@[x].event_type@, old(
                                self,
                            ).entries@[x].state_key@) != (old(self).entries@[y].event_type@, old(
                                self,
                            ).entries@[y].state_key@));
                        }
                    }
                }
            },
        }
    }

    /// The event id stored for a state pair, if any.
    pub fn get(&self, event_type: &str, state_key: &str) -> (r: Option<&String>)
        requires
            self.wf(),
        ensures
            match r {
                Some(id) => self@.contains_key((event_type@, state_key@)) && self@[
                    (event_type@, state_key@)
                ] == id@,
                None => !self@.contains_key((event_type@, state_key@)),
            },
    {
        match self.find_index(event_type, state_key) {
            Some(i) => {
                proof {
                    lemma_snapshot_index(self.entries@, i as int);
                }
                Some(&self.entries[i].event_id)
            },
            None => {
                proof {
                    lemma_snapshot_dom(self.entries@, (event_type@, state_key@));
                }
                None
            },
        }
    }
}

/// The outliers a fold has accepted, as (event id, document contents).
pub open spec fn outliers_view(v: Seq<(String, CanonicalDoc)>) -> Seq<
    (Seq<char>, Map<Seq<char>, JsonAbs>),
> {
    v.map_values(|p: (String, CanonicalDoc)| (p.0@, doc_model(p.1)))
}

/// Where a fold over a response's state list stands: the outliers accepted so
/// far, the snapshot built so far, the limiter as the fold left it, and
/// whether an accepted event turned out not to be a usable state event.
pub struct StateFoldModel {
    pub outliers: Seq<(Seq<char>, Map<Seq<char>, JsonAbs>)>,
    pub snapshot: Map<(Seq<char>, Seq<char>), Seq<char>>,
    pub limiter: Map<Seq<char>, (u64, u32)>,
    pub fatal: bool,
}

/// Folds a response's state list: each raw event runs through the validator;
/// a rejected event is skipped (its failure booked); an accepted one is kept
/// as an outlier and, when it carries a string `state_key`, enters the
/// snapshot under its (string) `type`.  An accepted event without a string
/// `type`, or with a non-string `state_key`, is no usable state event and
/// ends the fold.
pub open spec fn fold_state_events(
    st: StateFoldModel,
    raws: Seq<Seq<char>>,
    ver: RoomVersion,
    keys: Map<Seq<char>, Map<Seq<char>, Seq<char>>>,
    now_ms: u64,
) -> StateFoldModel
    decreases raws.len(),
{
    if st.fatal || raws.len() == 0 {
        st
    } else {
        let lim2 = spec_validate_limiter(raws[0], ver, keys, st.limiter, now_ms);
        match spec_validate(raws[0], ver, keys, st.limiter, now_ms) {
            Err(_) => fold_state_events(
                StateFoldModel { limiter: lim2, ..st },
                raws.drop_first(),
                ver,
                keys,
                now_ms,
            ),
            Ok((eid, doc)) => {
                if !(doc.contains_key("type"@) && doc["type"@] is Str) {
                    StateFoldModel { limiter: lim2, fatal: true, ..st }
                } else if doc.contains_key("state_key"@) && !(doc["state_key"@] is Str) {
                    StateFoldModel { limiter: lim2, fatal: true, ..st }
                } else {
                    let snap2 = if doc.contains_key("state_key"@) {
                        st.snapshot.insert(
                            (json_str(doc["type"@]), json_str(doc["state_key"@])),
                            eid,
                        )
                    } else {
                        st.snapshot
                    };
                    fold_state_events(
                        StateFoldModel {
                            outliers: st.outliers.push((eid, doc)),
                            snapshot: snap2,
                            limiter: lim2,
                            fatal: false,
                        },
                        raws.drop_first(),
                        ver,
                        keys,
                        now_ms,
                    )
                }
            },
        }
    }
}

/// The fold of a whole state list from a clean start.
pub open spec fn fold_state_events_from(
    raws: Seq<Seq<char>>,
    ver: RoomVersion,
    keys: Map<Seq<char>, Map<Seq<char>, Seq<char>>>,
    lim: Map<Seq<char>, (u64, u32)>,
    now_ms: u64,
) -> StateFoldModel {
    fold_state_events(
        StateFoldModel { outliers: Seq::empty(), snapshot: Map::empty(), limiter: lim, fatal: false },
        raws,
        ver,
        keys,
        now_ms,
    )
}

/// The outliers and snapshot accepted out of a response's state list.
pub struct StateFold {
    pub outliers: Vec<(String, CanonicalDoc)>,
    pub snapshot: StateSnapshot,
}

/// Validates every event of a response's state list and folds the accepted
/// ones into outliers and a state snapshot.
pub fn validate_state_events(
    raws: &Vec<String>,
    ver: RoomVersion,
    keys: &crypto::KeyStore,
    limiter: &mut BadEventTable,
    now_ms: u64,
) -> (r: Result<StateFold, EngineError>)
    requires
        old(limiter).wf(),
    ensures
        final(limiter).wf(),
        ({
            let f = fold_state_events_from(
                raws.deep_view(),
                ver,
                crypto::key_model(*keys),
                old(limiter)@,
                now_ms,
            );
            &&& final(limiter)@ == f.limiter
            &&& match r {
                Ok(sf) => !f.fatal && outliers_view(sf.outliers@) == f.outliers && sf.snapshot@
                    == f.snapshot && sf.snapshot.wf(),
                Err(e) => f.fatal && e == EngineError::BadServerResponse,
            }
        }),
{
    let ghost all = raws.deep_view();
    let ghost keys_m = crypto::key_model(*keys);
    let mut outliers: Vec<(String, CanonicalDoc)> = Vec::new();
    let mut snapshot = StateSnapshot::new();
    let n = raws.len();
    let mut i: usize = 0;
    proof {
        assert(all.skip(0) =~= all);
        assert(outliers_view(outliers@) =~= Seq::empty());
    }
    while i < n
        invariant
            old(limiter).wf(),
            limiter.wf(),
            snapshot.wf(),
            n == raws@.len(),
            all == raws.deep_view(),
            all.len() == n,
            keys_m == crypto::key_model(*keys),
            i <= n,
            fold_state_events_from(all, ver, keys_m, old(limiter)@, now_ms) == fold_state_events(
                StateFoldModel {
                    outliers: outliers_view(outliers@),
                    snapshot: snapshot@,
                    limiter: limiter@,
                    fatal: false,
                },
                all.skip(i as int),
                ver,
                keys_m,
                now_ms,
            ),
        decreases n - i,
    {
        proof {
            assert(all.skip(i as int)[0] == all[i as int]);
            assert(all.skip(i as int).drop_first() =~= all.skip(i + 1));
            assert(all[i as int] == raws@[i as int]@);
        }
        let raw = &raws[i];
        match crate::validator::validate_and_add_event_id(raw.as_str(), ver, keys, limiter, now_ms) {
            Err(_) => {},
            Ok((event_id, doc)) => {
                let event_type = match doc.get_str("type") {
                    Some(t) => t,
                    None => {
                        return Err(EngineError::BadServerResponse);
                    },
                };
                if doc.contains_key("state_key") {
                    let state_key = match doc.get_str("state_key") {
                        Some(sk) => sk,
                        None => {
                            return Err(EngineError::BadServerResponse);
                        },
                    };
                    snapshot.insert(event_type.as_str(), state_key.as_str(), event_id.as_str());
                }
                let ghost prev = outliers_view(outliers@);
                outliers.push((event_id, doc));
                proof {
                    assert(outliers_view(outliers@) =~= prev.push(
                        (outliers@.last().0@, doc_model(outliers@.last().1)),
                    ));
                }
            },
        }
        i = i + 1;
    }
    proof {
        assert(all.skip(n as int) =~= Seq::<Seq<char>>::empty());
    }
    Ok(StateFold { outliers, snapshot })
}

/// Where a fold over a response's auth chain stands.
pub struct AuthFoldModel {
    pub outliers: Seq<(Seq<char>, Map<Seq<char>, JsonAbs>)>,
    pub limiter: Map<Seq<char>, (u64, u32)>,
}

/// Folds a response's auth chain: every event that validates is kept as an
/// outlier; the rest are skipped, their failures booked.
pub open spec fn fold_auth_events(
    st: AuthFoldModel,
    raws: Seq<Seq<char>>,
    ver: RoomVersion,
    keys: Map<Seq<char>, Map<Seq<char>, Seq<char>>>,
    now_ms: u64,
) -> AuthFoldModel
    decreases raws.len(),
{
    if raws.len() == 0 {
        st
    } else {
        let lim2 = spec_validate_limiter(raws[0], ver, keys, st.limiter, now_ms);
        let out2 = match spec_validate(raws[0], ver, keys, st.limiter, now_ms) {
            Err(_) => st.outliers,
            Ok((eid, doc)) => st.outliers.push((eid, doc)),
        };
        fold_auth_events(
            AuthFoldModel { outliers: out2, limiter: lim2 },
            raws.drop_first(),
            ver,
            keys,
            now_ms,
        )
    }
}

/// Validates every event of a response's auth chain; the accepted ones are
/// returned as outliers.
pub fn validate_auth_chain(
    raws: &Vec<String>,
    ver: RoomVersion,
    keys: &crypto::KeyStore,
    limiter: &mut BadEventTable,
    now_ms: u64,
) -> (r: Vec<(String, CanonicalDoc)>)
    requires
        old(limiter).wf(),
    ensures
        final(limiter).wf(),
        ({
            let f = fold_auth_events(
                AuthFoldModel { outliers: Seq::empty(), limiter: old(limiter)@ },
                raws.deep_view(),
                ver,
                crypto::key_model(*keys),
                now_ms,
            );
            final(limiter)@ == f.limiter && outliers_view(r@) == f.outliers
        }),
{
    let ghost all = raws.deep_view();
    let ghost keys_m = crypto::key_model(*keys);
    let mut outliers: Vec<(String, CanonicalDoc)> = Vec::new();
    let n = raws.len();
    let mut i: usize = 0;
    proof {
        assert(all.skip(0) =~= all);
        assert(outliers_view(outliers@) =~= Seq::empty());
    }
    while i < n
        invariant
            old(limiter).wf(),
            limiter.wf(),
            n == raws@.len(),
            all == raws.deep_view(),
            all.len() == n,
            keys_m == crypto::key_model(*keys),
            i <= n,
            fold_auth_events(
                AuthFoldModel { outliers: Seq::empty(), limiter: old(limiter)@ },
                all,
                ver,
                keys_m,
                now_ms,
            ) == fold_auth_events(
                AuthFoldModel { outliers: outliers_view(outliers@), limiter: limiter@ },
                all.skip(i as int),
                ver,
                keys_m,
                now_ms,
            ),
        decreases n - i,
    {
        proof {
            assert(all.skip(i as int)[0] == all[i as int]);
            assert(all.skip(i as int).drop_first() =~= all.skip(i + 1));
            assert(all[i as int] == raws@[i as int]@);
        }
        let raw = &raws[i];
        match crate::validator::validate_and_add_event_id(raw.as_str(), ver, keys, limiter, now_ms) {
            Err(_) => {},
            Ok((event_id, doc)) => {
                let ghost prev = outliers_view(outliers@);
                outliers.push((event_id, doc));
                proof {
                    assert(outliers_view(outliers@) =~= prev.push(
                        (outliers@.last().0@, doc_model(outliers@.last().1)),
                    ));
                }
            },
        }
        i = i + 1;
    }
    proof {
        assert(all.skip(n as int) =~= Seq::<Seq<char>>::empty());
    }
    outliers
}

/// One storage write of the admission sequence.
#[derive(Clone, Copy, Debug, PartialEq, Eq, Structural)]
pub enum AdmissionStep {
    /// Compress and save the resolved pre-join state.
    SaveStateBefore,
    /// Point the room at the saved pre-join state.
    ForceStateBefore,
    /// Refresh the room's joined-member count.
    UpdateJoinedCount,
    /// Compute the post-join state that the join event induces.
    AppendToStateAfter,
    /// Durably append the join event itself.
    AppendJoinEvent,
    /// Publish the post-join state as the room's current state.
    PublishStateAfter,
}

/// The admission order: every save or force of the pre-join state precedes
/// every append of the join event, every append precedes every publication of
/// the post-join state, and all four kinds of write are present.
pub open spec fn admission_ordered(s: Seq<AdmissionStep>) -> bool {
    &&& forall|i: int, j: int|
        #![trigger s[i], s[j]]
        0 <= i < s.len() && 0 <= j < s.len() && s[j] == AdmissionStep::AppendJoinEvent && (s[i]
            == AdmissionStep::SaveStateBefore || s[i] == AdmissionStep::ForceStateBefore) ==> i < j
    &&& forall|i: int, j: int|
        #![trigger s[i], s[j]]
        0 <= i < s.len() && 0 <= j < s.len() && s[i] == AdmissionStep::AppendJoinEvent && s[j]
            == AdmissionStep::PublishStateAfter ==> i < j
    &&& s.contains(AdmissionStep::SaveStateBefore)
    &&& s.contains(AdmissionStep::ForceStateBefore)
    &&& s.contains(AdmissionStep::AppendJoinEvent)
    &&& s.contains(AdmissionStep::PublishStateAfter)
}

/// The one sequence of storage writes that admits a join.
pub open spec fn spec_admission_steps() -> Seq<AdmissionStep> {
    seq![
        AdmissionStep::SaveStateBefore,
        AdmissionStep::ForceStateBefore,
        AdmissionStep::UpdateJoinedCount,
        AdmissionStep::AppendToStateAfter,
        AdmissionStep::AppendJoinEvent,
        AdmissionStep::PublishStateAfter,
    ]
}

/// A validated join ready to be written: the snapshot it rests on, the join
/// event itself, and the storage writes in the order they must run.
pub struct AdmissionPlan {
    pub snapshot: StateSnapshot,
    pub event: SignedEvent,
    pub steps: Vec<AdmissionStep>,
}

/// Turns the external auth verdict over a validated join into the admission
/// plan.  A rejected join is forbidden outright; an accepted one is written
/// in the one order that keeps every intermediate state explicable.
pub fn admission_plan(auth_ok: bool, snapshot: StateSnapshot, event: SignedEvent) -> (r: Result<
    AdmissionPlan,
    EngineError,
>)
    ensures
        match r {
            Ok(p) => auth_ok && p.snapshot == snapshot && p.event == event && p.steps@
                == spec_admission_steps() && admission_ordered(p.steps@),
            Err(e) => !auth_ok && e == EngineError::Forbidden,
        },
{
    if !auth_ok {
        return Err(EngineError::Forbidden);
    }
    let mut steps: Vec<AdmissionStep> = Vec::new();
    steps.push(AdmissionStep::SaveStateBefore);
    steps.push(AdmissionStep::ForceStateBefore);
    steps.push(AdmissionStep::UpdateJoinedCount);
    steps.push(AdmissionStep::AppendToStateAfter);
    steps.push(AdmissionStep::AppendJoinEvent);
    steps.push(AdmissionStep::PublishStateAfter);
    proof {
        assert(steps@ =~= spec_admission_steps());
        lemma_admission_ordering();
    }
    Ok(AdmissionPlan { snapshot, event, steps })
}

/// The admission sequence never persists the join event before its pre-join
/// state exists, and never publishes the post-join state before the join
/// event is appended.
pub proof fn lemma_admission_ordering()
    ensures
        admission_ordered(spec_admission_steps()),
{
    let s = spec_admission_steps();
    assert(s.len() == 6);
    assert(s[0] == AdmissionStep::SaveStateBefore);
    assert(s[1] == AdmissionStep::ForceStateBefore);
    assert(s[2] == AdmissionStep::UpdateJoinedCount);
    assert(s[3] == AdmissionStep::AppendToStateAfter);
    assert(s[4] == AdmissionStep::AppendJoinEvent);
    assert(s[5] == AdmissionStep::PublishStateAfter);
    assert forall|i: int, j: int|
        #![trigger s[i], s[j]]
        0 <= i < s.len() && 0 <= j < s.len() && s[j] == AdmissionStep::AppendJoinEvent && (s[i]
            == AdmissionStep::SaveStateBefore || s[i] == AdmissionStep::ForceStateBefore) implies i
        < j by {
        assert(j == 4);
        assert(i == 0 || i == 1);
    }
    assert forall|i: int, j: int|
        #![trigger s[i], s[j]]
        0 <= i < s.len() && 0 <= j < s.len() && s[i] == AdmissionStep::AppendJoinEvent && s[j]
            == AdmissionStep::PublishStateAfter implies i < j by {
        assert(i == 4);
        assert(j == 5);
    }
    assert(s.contains(AdmissionStep::SaveStateBefore));
    assert(s.contains(AdmissionStep::ForceStateBefore));
    assert(s.contains(AdmissionStep::AppendJoinEvent));
    assert(s.contains(AdmissionStep::PublishStateAfter));
}

} // verus!
