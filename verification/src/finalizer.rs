//! The order-preserving channel carrying finalized records out of the
//! engine, modelled as the sequence of records pushed so far together with
//! the consumer's cursor into it.
//!
//! The channel is unbounded and single-producer/single-consumer: a push
//! never blocks and never fails observably to the producer, and the consumer
//! observes exactly the pushed sequence, in push order. The runtime plumbing
//! that suspends the consumer between pushes lives outside the library.

use vstd::prelude::*;

verus! {

/// A finalized record: the originating participant's index paired with the
/// finalized data item.
pub type FinalizedRecord = (usize, String);

/// The finalization channel: every record pushed so far, in push order, and
/// how many of them the consumer has already observed.
#[derive(Debug)]
pub struct SimpleFinalizationHandler {
    pub pushed: Vec<FinalizedRecord>,
    pub consumed: usize,
}

impl SimpleFinalizationHandler {
    pub fn new() -> (r: SimpleFinalizationHandler)
        ensures
            r.pushed@.len() == 0,
            r.consumed == 0,
    {
        SimpleFinalizationHandler { pushed: Vec::new(), consumed: 0 }
    }

    /// Appends one finalized record. Pushing never blocks and never
    /// reorders: the record takes the next position of the pushed sequence.
    pub fn data_finalized(&mut self, data: FinalizedRecord)
        ensures
            final(self).pushed@ == old(self).pushed@.push(data),
            final(self).consumed == old(self).consumed,
    {
        self.pushed.push(data);
    }

    /// Hands the consumer the next record in push order, or `None` when
    /// every pushed record has been observed. The record observed at cursor
    /// position `k` is always the `k`-th record pushed.
    pub fn next_finalized(&mut self) -> (r: Option<FinalizedRecord>)
        requires
            old(self).consumed <= old(self).pushed@.len(),
        ensures
            old(self).consumed < old(self).pushed@.len() ==> {
                &&& r matches Some(rec) && rec.0 == old(self).pushed@[old(self).consumed as int].0
                    && rec.1@ == old(self).pushed@[old(self).consumed as int].1@
                &&& final(self).consumed == old(self).consumed + 1
                &&& final(self).pushed@ == old(self).pushed@
            },
            old(self).consumed == old(self).pushed@.len() ==> r is None && *final(self) == *old(
                self,
            ),
    {
        if self.consumed < self.pushed.len() {
            let origin = self.pushed[self.consumed].0;
            let item = self.pushed[self.consumed].1.clone();
            self.consumed = self.consumed + 1;
            Some((origin, item))
        } else {
            None
        }
    }
}

/// Law: the channel is FIFO. Two records pushed one after the other occupy
/// consecutive positions of the pushed sequence, and `next_finalized` hands
/// out position `k` exactly at cursor position `k`, so the consumer observes
/// `r1` strictly before `r2`.
pub proof fn lemma_finalization_fifo(
    pushed: Seq<FinalizedRecord>,
    r1: FinalizedRecord,
    r2: FinalizedRecord,
)
    ensures
        pushed.push(r1).push(r2)[pushed.len() as int] == r1,
        pushed.push(r1).push(r2)[pushed.len() as int + 1] == r2,
{
}

} // verus!
