use vstd::prelude::*;

use crate::addr::{AddrModel, SockAddr};
use crate::errors::OpError;

verus! {

/// Incremental form of the multi-address connect fallback: candidates are
/// attempted strictly in order, one at a time, with no concurrency between
/// attempts; a failure is remembered only until the next one, and the
/// caller stops at the first success.
///
/// The surrounding runtime drives it: fetch the candidate under
/// `current`, attempt the connect, report a failure with `record_failure`,
/// and ask `verdict` for the error once `current` is exhausted.
pub struct ConnectMachine {
    candidates: Vec<SockAddr>,
    tried: usize,
    last_err: Option<OpError>,
}

impl ConnectMachine {
    /// The ordered candidate addresses, as models.
    pub closed spec fn candidates_view(self) -> Seq<AddrModel> {
        self.candidates@.map_values(|a: SockAddr| a@)
    }

    /// How many candidates have been attempted and failed.
    pub closed spec fn tried_count(self) -> int {
        self.tried as int
    }

    /// The error of the most recent failed attempt, if any.
    pub closed spec fn last_error(self) -> Option<OpError> {
        self.last_err
    }

    pub closed spec fn wf(self) -> bool {
        self.tried <= self.candidates@.len() && (self.last_err is Some <==> self.tried > 0)
    }

    pub fn new(candidates: Vec<SockAddr>) -> (m: Self)
        ensures
            m.wf(),
            m.candidates_view() == candidates@.map_values(|a: SockAddr| a@),
            m.tried_count() == 0,
            m.last_error() is None,
    {
        ConnectMachine { candidates, tried: 0, last_err: None }
    }

    /// The candidate to attempt next, in resolution order; `None` once all
    /// candidates are exhausted.
    pub fn current(&self) -> (r: Option<&SockAddr>)
        requires
            self.wf(),
        ensures
            match r {
                Some(a) => self.tried_count() < self.candidates_view().len() && a@
                    == self.candidates_view()[self.tried_count()],
                None => self.tried_count() == self.candidates_view().len(),
            },
    {
        if self.tried < self.candidates.len() {
            Some(&self.candidates[self.tried])
        } else {
            None
        }
    }

    /// Remembers the failure of the current candidate and advances to the
    /// next; the previous error, if any, is discarded.
    pub fn record_failure(&mut self, e: OpError)
        requires
            old(self).wf(),
            old(self).tried_count() < old(self).candidates_view().len(),
        ensures
            final(self).wf(),
            final(self).candidates_view() == old(self).candidates_view(),
            final(self).tried_count() == old(self).tried_count() + 1,
            final(self).last_error() == Some(e),
    {
        let n = self.candidates.len();
        proof {
            assert(self.candidates_view().len() == self.candidates@.len());
            assert(self.tried < n);
        }
        self.tried = self.tried + 1;
        self.last_err = Some(e);
    }

    /// The error of a connect whose candidates are exhausted without a
    /// success: the last attempt's error, or a resolution error — never a
    /// kernel one — when there was no candidate at all.
    pub fn verdict(&self) -> (r: OpError)
        requires
            self.wf(),
            self.tried_count() == self.candidates_view().len(),
        ensures
            self.candidates_view().len() == 0 ==> r == OpError::Resolution,
            self.candidates_view().len() > 0 ==> Some(r) == self.last_error(),
    {
        match self.last_err {
            Some(e) => e,
            None => OpError::Resolution,
        }
    }
}

/// The connect fallback decided in one piece, over the per-candidate
/// attempt outcomes: entry `i` of `outcomes` is `None` when attempting
/// candidate `i` succeeds, and `Some` of its error when it fails.
///
/// The contract is the fallback's law: when candidates before `k` fail and
/// `k` succeeds, the result is success with candidate `k` and no error
/// surfaces; when every candidate fails, exactly the last candidate's error
/// surfaces; and with no candidates at all, a resolution error — never a
/// kernel one.
pub fn run_fallback(outcomes: &Vec<Option<OpError>>) -> (r: Result<usize, OpError>)
    ensures
        match r {
            Ok(i) => i < outcomes@.len() && outcomes@[i as int] is None && (forall|j: int|
                0 <= j < i ==> outcomes@[j] is Some),
            Err(e) => (forall|j: int| 0 <= j < outcomes@.len() ==> outcomes@[j] is Some) && (
            outcomes@.len() == 0 ==> e == OpError::Resolution) && (outcomes@.len() > 0 ==> Some(e)
                == outcomes@[outcomes@.len() - 1]),
        },
{
    let mut last: Option<OpError> = None;
    let mut i: usize = 0;
    while i < outcomes.len()
        invariant
            0 <= i <= outcomes@.len(),
            forall|j: int| 0 <= j < i ==> outcomes@[j] is Some,
            i > 0 ==> last == outcomes@[i - 1],
            i == 0 ==> last is None,
        decreases outcomes@.len() - i,
    {
        match outcomes[i] {
            None => {
                return Ok(i);
            },
            Some(e) => {
                last = Some(e);
            },
        }
        i += 1;
    }
    match last {
        Some(e) => Err(e),
        None => Err(OpError::Resolution),
    }
}

} // verus!
