//! The federation negotiator.
//!
//! A join or leave that needs remote help probes an ordered list of candidate
//! servers, one at a time.  The local server is never probed.  Two counters
//! bound the round: after the sixteenth response that rejects the room
//! version the negotiation aborts as version-unsupported (the room version,
//! not availability, is then the blocker), and after the fifty-first failed
//! attempt of any kind it aborts as unavailable.  The first success ends the
//! round.

use vstd::prelude::*;
use vstd::string::StringExecFns;

verus! {

/// How many incompatible-room-version responses are tolerated before the
/// negotiation gives the room version up.
pub const MAX_INCOMPATIBLE_RESPONSES: u8 = 15;

/// How many failed attempts of any kind are tolerated before the negotiation
/// gives availability up.
pub const MAX_FAILED_ATTEMPTS: u16 = 50;

/// Where a negotiation stands after a failed attempt.
#[derive(Clone, Copy, Debug, PartialEq, Eq, Structural)]
pub enum NegotiationStatus {
    /// Keep probing the remaining candidates.
    Continue,
    /// Too many incompatible-version responses: the room version is the
    /// blocker.
    AbortUnsupported,
    /// Too many failures of any kind: no server can assist.
    AbortUnavailable,
}

/// The status the counters dictate: the incompatible-version threshold is
/// checked first, then the total-failure threshold.
pub open spec fn failure_status(attempts: int, incompatible: int) -> NegotiationStatus {
    if incompatible > MAX_INCOMPATIBLE_RESPONSES as int {
        NegotiationStatus::AbortUnsupported
    } else if attempts > MAX_FAILED_ATTEMPTS as int {
        NegotiationStatus::AbortUnavailable
    } else {
        NegotiationStatus::Continue
    }
}

/// The index of the next candidate to probe: the first at or after `from`
/// that is not the local server.
pub open spec fn spec_next_candidate(cands: Seq<Seq<char>>, local: Seq<char>, from: int) -> Option<
    int,
>
    decreases cands.len() - from,
{
    if from < 0 || from >= cands.len() {
        None
    } else if cands[from] != local {
        Some(from)
    } else {
        spec_next_candidate(cands, local, from + 1)
    }
}

/// One negotiation round over an ordered candidate list.
pub struct Negotiation {
    /// The candidate servers, in probing order.
    pub candidates: Vec<String>,
    /// The local server's name, which is never probed.
    pub local_server: String,
    /// The position the next probe starts from.
    pub next_index: usize,
    /// Failed attempts so far.
    pub attempts: u16,
    /// Incompatible-room-version responses so far.
    pub incompatible: u8,
}

impl Negotiation {
    /// The negotiation's bookkeeping stays inside its candidate list.
    pub open spec fn wf(&self) -> bool {
        self.next_index <= self.candidates@.len()
    }

    /// A fresh round over a candidate list.
    pub fn new(candidates: Vec<String>, local_server: String) -> (r: Negotiation)
        ensures
            r.wf(),
            r.candidates@ == candidates@,
            r.local_server@ == local_server@,
            r.next_index == 0,
            r.attempts == 0,
            r.incompatible == 0,
    {
        Negotiation { candidates, local_server, next_index: 0, attempts: 0, incompatible: 0 }
    }

    /// Hands out the next candidate server to probe, skipping the local
    /// server, or nothing when the list is exhausted.
    pub fn next_candidate(&mut self) -> (r: Option<String>)
        requires
            old(self).wf(),
        ensures
            final(self).wf(),
            final(self).candidates == old(self).candidates,
            final(self).local_server == old(self).local_server,
            final(self).attempts == old(self).attempts,
            final(self).incompatible == old(self).incompatible,
            match r {
                Some(s) => {
                    let found = spec_next_candidate(
                        old(self).candidates.deep_view(),
                        old(self).local_server@,
                        old(self).next_index as int,
                    );
                    &&& found matches Some(j) && s@ == old(self).candidates.deep_view()[j]
                        && final(self).next_index == j + 1
                },
                None => spec_next_candidate(
                    old(self).candidates.deep_view(),
                    old(self).local_server@,
                    old(self).next_index as int,
                ) is None && final(self).next_index == old(self).candidates@.len(),
            },
    {
        let n = self.candidates.len();
        let ghost cands = self.candidates.deep_view();
        let mut i: usize = self.next_index;
        while i < n
            invariant
                n == self.candidates@.len(),
                cands == self.candidates.deep_view(),
                cands.len() == n,
                old(self).next_index <= i <= n,
                *self == *old(self),
                spec_next_candidate(cands, self.local_server@, old(self).next_index as int)
                    == spec_next_candidate(cands, self.local_server@, i as int),
            decreases n - i,
        {
            proof {
                assert(cands[i as int] == self.candidates@[i as int]@);
            }
            if !crate::util::str_eq(self.candidates[i].as_str(), self.local_server.as_str()) {
                let server = String::from_str(self.candidates[i].as_str());
                self.next_index = i + 1;
                return Some(server);
            }
            i = i + 1;
        }
        self.next_index = n;
        None
    }

    /// Books one failed attempt and says whether the round goes on.  An
    /// incompatible-room-version response also feeds the version counter;
    /// both counters saturate.
    pub fn record_failure(&mut self, incompatible: bool) -> (r: NegotiationStatus)
        ensures
            final(self).candidates == old(self).candidates,
            final(self).local_server == old(self).local_server,
            final(self).next_index == old(self).next_index,
            final(self).attempts == if old(self).attempts == u16::MAX {
                u16::MAX
            } else {
                (old(self).attempts + 1) as u16
            },
            final(self).incompatible == if incompatible && old(self).incompatible < u8::MAX {
                (old(self).incompatible + 1) as u8
            } else {
                old(self).incompatible
            },
            r == failure_status(final(self).attempts as int, final(self).incompatible as int),
    {
        if self.attempts < u16::MAX {
            self.attempts = self.attempts + 1;
        }
        if incompatible && self.incompatible < u8::MAX {
            self.incompatible = self.incompatible + 1;
        }
        if self.incompatible > MAX_INCOMPATIBLE_RESPONSES {
            NegotiationStatus::AbortUnsupported
        } else if self.attempts > MAX_FAILED_ATTEMPTS {
            NegotiationStatus::AbortUnavailable
        } else {
            NegotiationStatus::Continue
        }
    }
}

/// The negotiation aborts as version-unsupported on exactly the sixteenth
/// incompatible-version response and never earlier, and as unavailable on
/// exactly the fifty-first failed attempt and never earlier.
pub proof fn lemma_negotiation_thresholds(attempts: int, incompatible: int)
    requires
        0 <= incompatible <= attempts,
    ensures
        failure_status(attempts, incompatible) == NegotiationStatus::AbortUnsupported
            <==> incompatible >= 16,
        incompatible < 16 ==> (failure_status(attempts, incompatible)
            == NegotiationStatus::AbortUnavailable <==> attempts >= 51),
        incompatible < 16 && attempts < 51 ==> failure_status(attempts, incompatible)
            == NegotiationStatus::Continue,
{
}

} // verus!
