use vstd::prelude::*;

use vstd::pervasive::arbitrary;
use vstd::pervasive::VecAdditionalExecFns;

use crate::request::SubmissionRequest;

verus! {

/// One arena slot: while in flight it holds the submission it pins.
pub enum Slot {
    Free,
    InFlight(SubmissionRequest),
}

/// Arena of pinned in-flight operation slots, keyed by request id.
///
/// A slot is taken when a request is submitted and released only when its
/// single completion is observed. The buffers and address storage a
/// pending request describes must not be reclaimed while its slot is
/// pending — the kernel may still write them, even if the task awaiting
/// the completion was abandoned. Ids are never reused, so a completion
/// cannot be observed twice: a second observation of the same id finds a
/// released slot and yields nothing.
pub struct InFlightArena {
    slots: Vec<Slot>,
}

impl InFlightArena {
    pub closed spec fn slot_count(self) -> int {
        self.slots@.len() as int
    }

    /// Whether `id` names a submitted request whose single completion has
    /// not yet been observed.
    pub closed spec fn is_pending(self, id: int) -> bool {
        0 <= id < self.slots@.len() && self.slots@[id] is InFlight
    }

    /// The request pinned under a pending id.
    pub closed spec fn request_at(self, id: int) -> SubmissionRequest
        recommends
            self.is_pending(id),
    {
        match self.slots@[id] {
            Slot::InFlight(req) => req,
            Slot::Free => arbitrary(),
        }
    }

    pub fn new() -> (a: Self)
        ensures
            a.slot_count() == 0,
            forall|j: int| !a.is_pending(j),
    {
        InFlightArena { slots: Vec::new() }
    }

    /// Submits a request: pins it under a fresh id, never one used before.
    pub fn submit(&mut self, req: SubmissionRequest) -> (id: usize)
        ensures
            id as int == old(self).slot_count(),
            final(self).slot_count() == old(self).slot_count() + 1,
            final(self).is_pending(id as int),
            final(self).request_at(id as int) == req,
            forall|j: int| j != id ==> final(self).is_pending(j) == old(self).is_pending(j),
            forall|j: int|
                j != id && old(self).is_pending(j) ==> final(self).request_at(j) == old(
                    self,
                ).request_at(j),
    {
        let id = self.slots.len();
        self.slots.push(Slot::InFlight(req));
        id
    }

    /// Observes the completion for `id`: releases the slot and returns the
    /// pinned request to its owner. Yields nothing when `id` is not
    /// pending — in particular when its completion was observed before.
    pub fn observe(&mut self, id: usize) -> (r: Option<SubmissionRequest>)
        ensures
            old(self).is_pending(id as int) ==> (r matches Some(req) && req == old(
                self,
            ).request_at(id as int)),
            !old(self).is_pending(id as int) ==> r is None,
            !final(self).is_pending(id as int),
            final(self).slot_count() == old(self).slot_count(),
            forall|j: int| j != id ==> final(self).is_pending(j) == old(self).is_pending(j),
            forall|j: int|
                j != id && old(self).is_pending(j) ==> final(self).request_at(j) == old(
                    self,
                ).request_at(j),
    {
        if id >= self.slots.len() {
            return None;
        }
        let pending = match &self.slots[id] {
            Slot::InFlight(_) => true,
            Slot::Free => false,
        };
        if !pending {
            return None;
        }
        let mut taken = Slot::Free;
        self.slots.set_and_swap(id, &mut taken);
        match taken {
            Slot::InFlight(req) => Some(req),
            Slot::Free => {
                proof {
                    assert(false);
                }
                None
            },
        }
    }
}

} // verus!
