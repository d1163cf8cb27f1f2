//! One delivery, end to end: authenticate the raw bytes, decode the batch,
//! enqueue its records — and always hand back an acknowledgment once
//! authentication has been attempted, whatever came of decoding or queuing.

use vstd::prelude::*;

use crate::auth::{auth_verdict, authenticate, counters_after_auth, sig_view, AuthOutcome,
    MAX_MAC_INPUT};
use crate::counters::{bump, bump_spec, sat_add, sat_add_spec, Counters};
use crate::decode::{batch_shapes, decode_delivery, failed_count, DecodeOutcome};
use crate::json::{parsed_json, JsonValue};
use crate::queue::{enqueue_batch, Producer};
use crate::record::records_match_shapes;

verus! {

/// The acknowledgment for one delivery: how authentication went, how many
/// records reached the queue, and what failed to decode. The delivery is
/// acknowledged to the caller whatever these say.
pub struct DeliveryReport {
    /// How the delivery fared against the authenticator.
    pub auth: AuthOutcome,
    /// How many offered records the queue accepted.
    pub queued: usize,
    /// How many array elements were malformed.
    pub decode_failures: usize,
    /// Whether the whole payload failed to parse as a JSON array.
    pub payload_failed: bool,
}

/// Handle one inbound delivery. A delivery that fails authentication yields
/// zero records and bumps the counter of its rejection reason. An
/// authenticated one is decoded, its malformed elements are counted, and
/// every decoded record is offered to the queue, in array order — a refusal
/// by a shut-down queue never stops the rest of the batch and never fails
/// the delivery.
pub fn handle_delivery(
    q: &mut Producer,
    raw: &Vec<u8>,
    signature: Option<&str>,
    secret: &Vec<u8>,
    counters: &mut Counters,
) -> (rep: DeliveryReport)
    requires
        raw@.len() < MAX_MAC_INPUT,
        secret@.len() < MAX_MAC_INPUT,
    ensures
        rep.auth == auth_verdict(raw@, sig_view(signature), secret@),
        rep.auth != AuthOutcome::Verified ==> {
            &&& rep.queued == 0
            &&& rep.decode_failures == 0
            &&& !rep.payload_failed
            &&& final(q).offered() == old(q).offered()
            &&& *final(counters) == counters_after_auth(*old(counters), rep.auth)
        },
        rep.auth == AuthOutcome::Verified ==> (match parsed_json(raw@) {
            Some(JsonValue::Arr(elems)) => {
                &&& !rep.payload_failed
                &&& rep.decode_failures == failed_count(elems@)
                &&& final(q).offered().len() == old(q).offered().len() + batch_shapes(
                    elems@,
                ).len()
                &&& final(q).offered().take(old(q).offered().len() as int) == old(q).offered()
                &&& records_match_shapes(
                    final(q).offered().skip(old(q).offered().len() as int),
                    batch_shapes(elems@),
                )
                &&& rep.queued <= batch_shapes(elems@).len()
                &&& *final(counters) == (Counters {
                    element_failures: sat_add_spec(
                        old(counters).element_failures,
                        failed_count(elems@),
                    ),
                    ..*old(counters)
                })
            },
            _ => {
                &&& rep.payload_failed
                &&& rep.queued == 0
                &&& rep.decode_failures == 0
                &&& final(q).offered() == old(q).offered()
                &&& *final(counters) == (Counters {
                    payload_failures: bump_spec(old(counters).payload_failures),
                    ..*old(counters)
                })
            },
        }),
{
    let auth = authenticate(raw, signature, secret, counters);
    match auth {
        AuthOutcome::Verified => {},
        _ => {
            return DeliveryReport { auth, queued: 0, decode_failures: 0, payload_failed: false };
        },
    }
    match decode_delivery(raw) {
        DecodeOutcome::Batch { records, failed } => {
            counters.element_failures = sat_add(counters.element_failures, failed as u64);
            let ghost base = q.offered();
            let ghost offered_records = records@;
            let queued = enqueue_batch(q, records);
            proof {
                assert(q.offered().take(base.len() as int) =~= base);
                assert(q.offered().skip(base.len() as int) =~= offered_records);
            }
            DeliveryReport { auth, queued, decode_failures: failed, payload_failed: false }
        },
        DecodeOutcome::PayloadError => {
            counters.payload_failures = bump(counters.payload_failures);
            DeliveryReport { auth, queued: 0, decode_failures: 0, payload_failed: true }
        },
    }
}

} // verus!
