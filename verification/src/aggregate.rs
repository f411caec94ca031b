//! The counts gathered since the last flush.

use crate::payload::{is_body_of, payload_from, to_json, Payload};
use std::collections::HashMap;
use vstd::prelude::*;

verus! {

broadcast use vstd::std_specs::hash::group_hash_axioms;

/// How often `id` has been counted in `counts`: zero where it has no entry.
pub open spec fn count_in(counts: Map<u32, u32>, id: u32) -> nat {
    if counts.contains_key(id) {
        counts[id] as nat
    } else {
        0
    }
}

/// `counts` after one more evaluation of `id`.
pub open spec fn bumped(counts: Map<u32, u32>, id: u32) -> Map<u32, u32>
    recommends
        count_in(counts, id) < u32::MAX,
{
    counts.insert(id, (count_in(counts, id) + 1) as u32)
}

/// Every identifier that has an entry was counted at least once.
pub open spec fn all_seen(counts: Map<u32, u32>) -> bool {
    counts.dom().finite() && forall|id: u32| counts.contains_key(id) ==> #[trigger] counts[id] >= 1
}

/// Evaluation counts by feature identifier.
#[derive(Debug)]
pub struct Aggregate {
    counts: HashMap<u32, u32>,
}

impl View for Aggregate {
    type V = Map<u32, u32>;

    closed spec fn view(&self) -> Map<u32, u32> {
        self.counts@
    }
}

impl Aggregate {
    /// The invariant: an identifier has an entry only if its count is positive.
    pub open spec fn wf(&self) -> bool {
        all_seen(self@)
    }

    pub fn new() -> (agg: Aggregate)
        ensures
            agg.wf(),
            agg@ == Map::<u32, u32>::empty(),
    {
        Aggregate { counts: HashMap::new() }
    }

    /// Counts one evaluation of `id`.
    pub fn record(&mut self, id: u32)
        requires
            old(self).wf(),
            count_in(old(self)@, id) < u32::MAX,
        ensures
            final(self).wf(),
            final(self)@ == bumped(old(self)@, id),
    {
        let next: u32 = match self.counts.get(&id) {
            Some(seen) => *seen + 1,
            None => 1,
        };
        self.counts.insert(id, next);
    }

    /// The count of `id`, zero where it has no entry.
    pub fn count(&self, id: u32) -> (n: u32)
        ensures
            n == count_in(self@, id),
            self.wf() ==> (n > 0 <==> self@.contains_key(id)),
    {
        match self.counts.get(&id) {
            Some(seen) => *seen,
            None => 0,
        }
    }

    /// Whether one more evaluation of `id` can still be counted.
    pub fn has_room(&self, id: u32) -> (room: bool)
        ensures
            room == (count_in(self@, id) < u32::MAX),
    {
        self.count(id) < u32::MAX
    }

    pub fn is_empty(&self) -> (empty: bool)
        ensures
            empty == (self@ == Map::<u32, u32>::empty()),
    {
        let empty = self.counts.is_empty();
        proof {
            if empty {
                assert(self@ =~= Map::<u32, u32>::empty());
            }
        }
        empty
    }

    /// Sets the count of `id`; a count of zero removes the entry.
    pub fn set_count(&mut self, id: u32, count: u32)
        requires
            old(self).wf(),
        ensures
            final(self).wf(),
            count == 0 ==> final(self)@ == old(self)@.remove(id),
            count != 0 ==> final(self)@ == old(self)@.insert(id, count),
    {
        if count == 0 {
            self.counts.remove(&id);
        } else {
            self.counts.insert(id, count);
        }
    }

    /// Drops every entry.
    pub fn clear(&mut self)
        ensures
            final(self).wf(),
            final(self)@ == Map::<u32, u32>::empty(),
    {
        self.counts.clear();
    }

    /// What a flush of the current counts has to transmit: nothing exactly
    /// where there are no counts, else the body that encodes them.
    pub fn payload(&self) -> (payload: Payload)
        ensures
            payload is Nothing <==> self@ == Map::<u32, u32>::empty(),
            self@ != Map::<u32, u32>::empty() ==> payload is Body,
            payload matches Payload::Body(text) ==> is_body_of(text@, self@),
    {
        if self.is_empty() {
            Payload::Nothing
        } else {
            payload_from(to_json(&self.counts))
        }
    }
}

} // verus!
