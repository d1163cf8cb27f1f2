//! The observability surface of the ingestion core: counters for each
//! rejection and failure class, the only state exposed to a metrics collector.

use vstd::prelude::*;

verus! {

/// Counts of rejected or failed work, one field per failure class.
#[derive(Clone, Copy, PartialEq, Eq, Structural, Debug)]
pub struct Counters {
    /// Deliveries rejected because no signature accompanied them.
    pub sig_missing: u64,
    /// Deliveries rejected because the signature was not fixed-length hex.
    pub sig_malformed: u64,
    /// Deliveries rejected because the decoded signature did not match.
    pub sig_mismatch: u64,
    /// Array elements that failed to decode, summed over all deliveries.
    pub element_failures: u64,
    /// Deliveries whose whole payload was not a valid JSON array.
    pub payload_failures: u64,
}

/// What a counter holds after one more event: one higher, stopping at the top
/// of the range rather than wrapping.
pub open spec fn bump_spec(c: u64) -> u64 {
    if c == u64::MAX {
        c
    } else {
        (c + 1) as u64
    }
}

/// What a counter holds after `n` more events, stopping at the top of the range.
pub open spec fn sat_add_spec(c: u64, n: nat) -> u64 {
    if c + n > u64::MAX {
        u64::MAX
    } else {
        (c + n) as u64
    }
}

/// Count one more event.
pub fn bump(c: u64) -> (r: u64)
    ensures
        r == bump_spec(c),
{
    if c == u64::MAX {
        c
    } else {
        c + 1
    }
}

/// Count `n` more events.
pub fn sat_add(c: u64, n: u64) -> (r: u64)
    ensures
        r == sat_add_spec(c, n as nat),
{
    if c > u64::MAX - n {
        u64::MAX
    } else {
        c + n
    }
}

impl Counters {
    /// A fresh set of counters, all zero.
    pub fn new() -> (r: Counters)
        ensures
            r == (Counters {
                sig_missing: 0u64,
                sig_malformed: 0u64,
                sig_mismatch: 0u64,
                element_failures: 0u64,
                payload_failures: 0u64,
            }),
    {
        Counters {
            sig_missing: 0,
            sig_malformed: 0,
            sig_mismatch: 0,
            element_failures: 0,
            payload_failures: 0,
        }
    }
}

} // verus!
