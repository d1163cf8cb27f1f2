//! The ingestion queue's producer side: an unbounded, ordered conduit of
//! records between the many request-handling contexts and the one dispatch
//! loop.
//!
//! The queue is unbounded by design: ingestion must never be slowed by sink
//! latency, which trades memory growth under a sustained sink outage for a
//! caller that never waits — an accepted risk, not a bug.

use vstd::prelude::*;

use crate::record::Record;

verus! {

#[verifier::external_type_specification]
#[verifier::external_body]
#[verifier::reject_recursive_types(T)]
pub struct ExUnboundedSender<T>(tokio::sync::mpsc::UnboundedSender<T>);

/// One producer handle on the ingestion queue, with a ghost log of every
/// record it has offered to the channel, in offer order. Only the trusted
/// send wrapper advances the log, so a contract over `offered()` accounts
/// for exactly the records that were handed to the channel.
pub struct Producer {
    tx: tokio::sync::mpsc::UnboundedSender<Record>,
    offered: Ghost<Seq<Record>>,
}

impl Producer {
    /// Every record this producer has handed to the channel, in offer order,
    /// accepted and refused alike.
    pub closed spec fn offered(&self) -> Seq<Record> {
        self.offered@
    }

    /// A fresh producer over the given send half, with an empty offer log.
    pub fn new(tx: tokio::sync::mpsc::UnboundedSender<Record>) -> (q: Producer)
        ensures
            q.offered() == Seq::<Record>::empty(),
    {
        Producer { tx, offered: Ghost(Seq::empty()) }
    }
}

/// Relies on tokio's UnboundedSender::send: the channel has no capacity
/// bound, so the call completes at once and never waits; it fails exactly
/// when the receive half is gone, handing the refused record back. The offer
/// log grows by this record and by nothing else.
#[verifier::external_body]
fn send_one(q: &mut Producer, rec: Record) -> (r: Result<(), Record>)
    ensures
        final(q).offered() == old(q).offered().push(rec),
        r matches Err(m) ==> m == rec,
{
    q.tx.send(rec).map_err(|e| e.0)
}

/// Enqueue a batch's records one at a time, in batch order, without ever
/// waiting: every record is offered to the channel, a refusal never stops
/// the rest of the batch. A record refused because the consumer has shut
/// down is dropped; that never fails the delivery, the caller only learns
/// how many were taken.
pub fn enqueue_batch(q: &mut Producer, records: Vec<Record>) -> (queued: usize)
    ensures
        final(q).offered() == old(q).offered() + records@,
        queued <= records@.len(),
{
    let ghost orig = records@;
    let ghost base = q.offered();
    let mut rest = records;
    let mut queued: usize = 0;
    let n = rest.len();
    proof {
        assert(orig.take(0) =~= Seq::<Record>::empty());
        assert(q.offered() =~= base + orig.take(0));
        assert(orig.len() == n);
    }
    while rest.len() > 0
        invariant
            rest@.len() <= orig.len(),
            orig.len() <= usize::MAX,
            rest@ =~= orig.skip(orig.len() - rest@.len()),
            q.offered() == base + orig.take(orig.len() - rest@.len()),
            queued <= orig.len() - rest@.len(),
        decreases rest@.len(),
    {
        let ghost done = orig.len() - rest@.len();
        let rec = rest.remove(0);
        proof {
            assert(rec == orig[done as int]);
            assert(rest@ =~= orig.skip(done as int + 1));
        }
        match send_one(q, rec) {
            Ok(()) => {
                queued = queued + 1;
            },
            Err(_) => {
            },
        }
        proof {
            assert(orig.take(done as int + 1) =~= orig.take(done as int).push(
                orig[done as int],
            ));
            assert(q.offered() =~= base + orig.take(done as int + 1));
        }
    }
    proof {
        assert(orig.take(orig.len() as int) =~= orig);
        assert(q.offered() =~= base + orig);
    }
    queued
}

} // verus!
