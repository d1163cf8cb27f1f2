//! The controller: owner of the queue's consumer end and of the registered
//! sinks, dispatching every queued record to each sink independently.
//!
//! One sink's failure never withholds a record from the others and never
//! ejects the sink: a persistently failing sink keeps its place and its
//! growing failure counter, by design.

use vstd::prelude::*;
use vstd::pervasive::VecAdditionalExecFns;

use crate::counters::{bump, bump_spec};
use crate::record::Record;

verus! {

/// A delivery error a sink reports: free text for the operator.
#[derive(Debug)]
pub struct SinkError {
    pub message: String,
}

/// The capability every downstream backend offers. An implementation does
/// its own batching, authentication and retrying, synchronizes its own
/// session internally, and fails only by returning an error — it never
/// raises past the controller and never ends the process.
pub trait Sink {
    /// One-time startup: whatever client or session the backend needs.
    /// Failing here is fatal to startup, not recoverable at runtime.
    fn init(&self) -> Result<(), SinkError>;

    /// Attempt to deliver one record to the backend.
    fn deliver(&self, rec: &Record) -> Result<(), SinkError>;
}

/// Where the controller stands in its life: it only ever moves forward.
#[derive(Clone, Copy, PartialEq, Eq, Structural, Debug)]
pub enum Phase {
    Uninitialized,
    Initialized,
    Running,
}

/// The dispatch controller: the registered sinks, a stable name for each,
/// and a delivery-failure counter per sink — the only sink state it keeps.
pub struct Controller<S: Sink> {
    pub phase: Phase,
    pub sinks: Vec<S>,
    pub names: Vec<String>,
    pub failures: Vec<u64>,
}

impl<S: Sink> Controller<S> {
    /// Well-formed: one name and one failure counter per sink.
    pub open spec fn wf(&self) -> bool {
        &&& self.names@.len() == self.sinks@.len()
        &&& self.failures@.len() == self.sinks@.len()
    }

    /// A controller over the given sinks, not yet initialized, every failure
    /// counter at zero. Sinks are registered here once, for the process
    /// lifetime; there is no runtime add or remove.
    pub fn new(sinks: Vec<S>, names: Vec<String>) -> (c: Controller<S>)
        requires
            names@.len() == sinks@.len(),
        ensures
            c.wf(),
            c.phase == Phase::Uninitialized,
            c.sinks == sinks,
            c.names == names,
            forall|i: int| 0 <= i < c.failures@.len() ==> c.failures@[i] == 0,
    {
        let mut failures: Vec<u64> = Vec::new();
        let n = sinks.len();
        let mut i: usize = 0;
        while i < n
            invariant
                i <= n,
                failures@.len() == i,
                forall|j: int| 0 <= j < i ==> failures@[j] == 0,
            decreases n - i,
        {
            failures.push(0);
            i = i + 1;
        }
        Controller { phase: Phase::Uninitialized, sinks, names, failures }
    }

    /// One-time startup: every sink's `init` must succeed before dispatch may
    /// begin. The first failure is reported and is fatal: the controller
    /// stays uninitialized.
    pub fn init(&mut self) -> (r: Result<(), SinkError>)
        requires
            old(self).wf(),
            old(self).phase == Phase::Uninitialized,
        ensures
            final(self).wf(),
            final(self).sinks == old(self).sinks,
            final(self).names == old(self).names,
            final(self).failures == old(self).failures,
            r is Ok ==> final(self).phase == Phase::Initialized,
            r is Err ==> final(self).phase == Phase::Uninitialized,
            old(self).sinks@.len() == 0 ==> r is Ok,
    {
        let mut i: usize = 0;
        while i < self.sinks.len()
            invariant
                *self == (Controller { phase: Phase::Uninitialized, ..*old(self) }),
                old(self).wf(),
            decreases self.sinks@.len() - i,
        {
            match self.sinks[i].init() {
                Ok(()) => {},
                Err(e) => {
                    return Err(e);
                },
            }
            i = i + 1;
        }
        self.phase = Phase::Initialized;
        Ok(())
    }

    /// Enter the dispatch loop's phase. From here the controller only takes
    /// records until the queue's producer side closes at process exit.
    pub fn begin_run(&mut self)
        requires
            old(self).phase == Phase::Initialized,
        ensures
            *final(self) == (Controller { phase: Phase::Running, ..*old(self) }),
    {
        self.phase = Phase::Running;
    }

    /// Dispatch one record: the loop below hands it to every registered
    /// sink once, in registration order. A sink's failure is counted against
    /// that sink alone and never withholds the record from the others; no
    /// sink is ejected. The contract pins the outcome list's length and the
    /// failure accounting; what each attempt returned comes back, one
    /// outcome per sink.
    pub fn dispatch(&mut self, rec: &Record) -> (outcomes: Vec<bool>)
        requires
            old(self).wf(),
            old(self).phase == Phase::Running,
        ensures
            final(self).wf(),
            final(self).phase == Phase::Running,
            final(self).sinks == old(self).sinks,
            final(self).names == old(self).names,
            outcomes@.len() == old(self).sinks@.len(),
            final(self).failures@.len() == old(self).failures@.len(),
            forall|i: int|
                0 <= i < outcomes@.len() ==> final(self).failures@[i] == (if outcomes@[i] {
                    old(self).failures@[i]
                } else {
                    bump_spec(old(self).failures@[i])
                }),
    {
        let mut outcomes: Vec<bool> = Vec::new();
        let n = self.sinks.len();
        let mut i: usize = 0;
        while i < n
            invariant
                old(self).wf(),
                old(self).phase == Phase::Running,
                i <= n,
                n == self.sinks@.len(),
                self.phase == old(self).phase,
                self.sinks == old(self).sinks,
                self.names == old(self).names,
                self.failures@.len() == old(self).failures@.len(),
                outcomes@.len() == i,
                forall|j: int|
                    0 <= j < i ==> self.failures@[j] == (if outcomes@[j] {
                        old(self).failures@[j]
                    } else {
                        bump_spec(old(self).failures@[j])
                    }),
                forall|j: int| i <= j < self.failures@.len() ==> self.failures@[j] == old(
                    self,
                ).failures@[j],
            decreases n - i,
        {
            let ok = match self.sinks[i].deliver(rec) {
                Ok(()) => true,
                Err(_) => false,
            };
            outcomes.push(ok);
            if !ok {
                let f = bump(self.failures[i]);
                self.failures.set(i, f);
            }
            i = i + 1;
        }
        outcomes
    }
}

/// The indices whose outcome is a failure, in strictly increasing order:
/// exactly the failing subset of one dispatch pass, each index once — every
/// entry failed, every failure is an entry, and none repeats.
pub fn failing_subset(outcomes: &Vec<bool>) -> (fails: Vec<usize>)
    ensures
        forall|k: int|
            0 <= k < fails@.len() ==> fails@[k] < outcomes@.len() && !outcomes@[fails@[k] as int],
        forall|j: int| 0 <= j < outcomes@.len() && !outcomes@[j] ==> fails@.contains(j as usize),
        forall|k1: int, k2: int| 0 <= k1 < k2 < fails@.len() ==> fails@[k1] < fails@[k2],
{
    let mut fails: Vec<usize> = Vec::new();
    let n = outcomes.len();
    let mut i: usize = 0;
    while i < n
        invariant
            i <= n,
            n == outcomes@.len(),
            forall|k: int| 0 <= k < fails@.len() ==> fails@[k] < i && !outcomes@[fails@[k] as int],
            forall|j: int| 0 <= j < i && !outcomes@[j] ==> fails@.contains(j as usize),
            forall|k1: int, k2: int| 0 <= k1 < k2 < fails@.len() ==> fails@[k1] < fails@[k2],
        decreases n - i,
    {
        if !outcomes[i] {
            let ghost before = fails@;
            fails.push(i);
            proof {
                assert forall|j: int| 0 <= j < i + 1 && !outcomes@[j] implies fails@.contains(
                    j as usize,
                ) by {
                    if j < i {
                        let k = choose|k: int| 0 <= k < before.len() && before[k] == j as usize;
                        assert(fails@[k] == j as usize);
                    } else {
                        assert(fails@[fails@.len() - 1] == i as usize);
                    }
                }
            }
        } else {
            proof {
                assert forall|j: int| 0 <= j < i + 1 && !outcomes@[j] implies fails@.contains(
                    j as usize,
                ) by {
                }
            }
        }
        i = i + 1;
    }
    fails
}

} // verus!
