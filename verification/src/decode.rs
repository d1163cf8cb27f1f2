//! The payload decoder: one delivery's JSON array becomes an ordered batch of
//! records, one per well-shaped element.
//!
//! A malformed element is counted and skipped; it never invalidates its
//! siblings. Only a payload that is not a JSON array at all fails whole.

use vstd::prelude::*;

use crate::json::{parse_json, parsed_json, JsonValue};
use crate::record::{record_matches, records_match_shapes, Record, RecordShape, SourceKind};

verus! {

/// Character-for-character equality of two pieces of text.
pub fn str_eq(a: &str, b: &str) -> (r: bool)
    ensures
        r == (a@ == b@),
{
    let n = a.unicode_len();
    if n != b.unicode_len() {
        return false;
    }
    let mut i: usize = 0;
    while i < n
        invariant
            a@.len() == n,
            b@.len() == n,
            i <= n,
            forall|j: int| 0 <= j < i ==> a@[j] == b@[j],
        decreases n - i,
    {
        if a.get_char(i) != b.get_char(i) {
            return false;
        }
        i = i + 1;
    }
    proof {
        assert(a@ =~= b@);
    }
    true
}

/// The value under `key`, scanning members in order: the first member whose
/// name is `key` decides.
pub open spec fn obj_lookup(fields: Seq<(String, JsonValue)>, key: Seq<char>) -> Option<JsonValue>
    decreases fields.len(),
{
    if fields.len() == 0 {
        None
    } else if fields[0].0@ == key {
        Some(fields[0].1)
    } else {
        obj_lookup(fields.drop_first(), key)
    }
}

/// The text under `key`, where the first member so named holds a string.
pub open spec fn str_field(fields: Seq<(String, JsonValue)>, key: Seq<char>) -> Option<Seq<char>> {
    match obj_lookup(fields, key) {
        Some(JsonValue::Str(s)) => Some(s@),
        _ => None,
    }
}

/// The integer under `key`, where the first member so named holds one.
pub open spec fn int_field(fields: Seq<(String, JsonValue)>, key: Seq<char>) -> Option<i64> {
    match obj_lookup(fields, key) {
        Some(JsonValue::Int(i)) => Some(i),
        _ => None,
    }
}

proof fn lemma_lookup_none(fields: Seq<(String, JsonValue)>, key: Seq<char>)
    requires
        forall|j: int| 0 <= j < fields.len() ==> fields[j].0@ != key,
    ensures
        obj_lookup(fields, key) is None,
    decreases fields.len(),
{
    if fields.len() > 0 {
        lemma_lookup_none(fields.drop_first(), key);
    }
}

proof fn lemma_lookup_hit(fields: Seq<(String, JsonValue)>, key: Seq<char>, i: int)
    requires
        0 <= i < fields.len(),
        fields[i].0@ == key,
        forall|j: int| 0 <= j < i ==> fields[j].0@ != key,
    ensures
        obj_lookup(fields, key) == Some(fields[i].1),
    decreases i,
{
    if i > 0 {
        lemma_lookup_hit(fields.drop_first(), key, i - 1);
    }
}

/// The text under `key`, or nothing where no member is so named or the first
/// one so named holds no string.
pub fn get_str(fields: &Vec<(String, JsonValue)>, key: &str) -> (r: Option<String>)
    ensures
        r is Some <==> str_field(fields@, key@) is Some,
        r matches Some(s) ==> str_field(fields@, key@) == Some(s@),
{
    let mut i: usize = 0;
    while i < fields.len()
        invariant
            i <= fields@.len(),
            forall|j: int| 0 <= j < i ==> fields@[j].0@ != key@,
        decreases fields@.len() - i,
    {
        if str_eq(fields[i].0.as_str(), key) {
            proof {
                lemma_lookup_hit(fields@, key@, i as int);
            }
            match &fields[i].1 {
                JsonValue::Str(s) => {
                    return Some(s.as_str().to_owned());
                },
                _ => {
                    return None;
                },
            }
        }
        i = i + 1;
    }
    proof {
        lemma_lookup_none(fields@, key@);
    }
    None
}

/// The integer under `key`, or nothing where no member is so named or the
/// first one so named holds no integer.
pub fn get_int(fields: &Vec<(String, JsonValue)>, key: &str) -> (r: Option<i64>)
    ensures
        r == int_field(fields@, key@),
{
    let mut i: usize = 0;
    while i < fields.len()
        invariant
            i <= fields@.len(),
            forall|j: int| 0 <= j < i ==> fields@[j].0@ != key@,
        decreases fields@.len() - i,
    {
        if str_eq(fields[i].0.as_str(), key) {
            proof {
                lemma_lookup_hit(fields@, key@, i as int);
            }
            match &fields[i].1 {
                JsonValue::Int(t) => {
                    return Some(*t);
                },
                _ => {
                    return None;
                },
            }
        }
        i = i + 1;
    }
    proof {
        lemma_lookup_none(fields@, key@);
    }
    None
}

/// Which source kind a discriminant names.
pub open spec fn kind_of_name(s: Seq<char>) -> Option<SourceKind> {
    if s == "build"@ {
        Some(SourceKind::Build)
    } else if s == "lambda"@ {
        Some(SourceKind::Lambda)
    } else if s == "edge"@ {
        Some(SourceKind::Edge)
    } else if s == "static"@ {
        Some(SourceKind::Static)
    } else if s == "external"@ {
        Some(SourceKind::External)
    } else {
        None
    }
}

/// Which source kind a discriminant names, or nothing for an unrecognized one.
pub fn kind_from_name(s: &str) -> (r: Option<SourceKind>)
    ensures
        r == kind_of_name(s@),
{
    if str_eq(s, "build") {
        Some(SourceKind::Build)
    } else if str_eq(s, "lambda") {
        Some(SourceKind::Lambda)
    } else if str_eq(s, "edge") {
        Some(SourceKind::Edge)
    } else if str_eq(s, "static") {
        Some(SourceKind::Static)
    } else if str_eq(s, "external") {
        Some(SourceKind::External)
    } else {
        None
    }
}

/// What one array element decodes to: a record shape where the element is an
/// object with a recognized `source` discriminant, a string `message` and an
/// integer `timestamp`; nothing otherwise.
pub open spec fn element_shape(v: JsonValue) -> Option<RecordShape> {
    match v {
        JsonValue::Obj(fields) => match str_field(fields@, "source"@) {
            Some(src) => match str_field(fields@, "message"@) {
                Some(msg) => match int_field(fields@, "timestamp"@) {
                    Some(ts) => match kind_of_name(src) {
                        Some(kind) => Some(
                            RecordShape {
                                kind,
                                timestamp: ts,
                                level: str_field(fields@, "level"@),
                                message: msg,
                                deployment_id: str_field(fields@, "deploymentId"@),
                                project_id: str_field(fields@, "projectId"@),
                                request_id: str_field(fields@, "requestId"@),
                                payload: fields@,
                            },
                        ),
                        None => None,
                    },
                    None => None,
                },
                None => None,
            },
            None => None,
        },
        _ => None,
    }
}

/// Decode one array element, or report it malformed.
pub fn decode_element(v: JsonValue) -> (r: Option<Record>)
    ensures
        r is Some <==> element_shape(v) is Some,
        r matches Some(rec) ==> record_matches(rec, element_shape(v).unwrap()),
{
    match v {
        JsonValue::Obj(fields) => {
            let src = match get_str(&fields, "source") {
                Some(s) => s,
                None => {
                    return None;
                },
            };
            let message = match get_str(&fields, "message") {
                Some(s) => s,
                None => {
                    return None;
                },
            };
            let timestamp = match get_int(&fields, "timestamp") {
                Some(t) => t,
                None => {
                    return None;
                },
            };
            let kind = match kind_from_name(src.as_str()) {
                Some(k) => k,
                None => {
                    return None;
                },
            };
            let level = get_str(&fields, "level");
            let deployment_id = get_str(&fields, "deploymentId");
            let project_id = get_str(&fields, "projectId");
            let request_id = get_str(&fields, "requestId");
            Some(
                Record {
                    kind,
                    timestamp,
                    level,
                    message,
                    deployment_id,
                    project_id,
                    request_id,
                    payload: fields,
                },
            )
        },
        _ => None,
    }
}

/// The shapes of the well-formed elements of a batch, in array order.
pub open spec fn batch_shapes(s: Seq<JsonValue>) -> Seq<RecordShape>
    decreases s.len(),
{
    if s.len() == 0 {
        Seq::empty()
    } else {
        batch_shapes(s.drop_last()) + (match element_shape(s.last()) {
            Some(m) => seq![m],
            None => Seq::empty(),
        })
    }
}

/// How many elements of a batch are malformed.
pub open spec fn failed_count(s: Seq<JsonValue>) -> nat
    decreases s.len(),
{
    if s.len() == 0 {
        0nat
    } else {
        failed_count(s.drop_last()) + (if element_shape(s.last()) is None {
            1nat
        } else {
            0nat
        })
    }
}

/// Law: decoding partitions a batch. A batch of `N` well-formed and `M`
/// malformed elements yields exactly `N` record shapes and counts exactly
/// `M` failures: the two always add up to the batch's length.
pub proof fn lemma_batch_partition(s: Seq<JsonValue>)
    ensures
        batch_shapes(s).len() + failed_count(s) == s.len(),
    decreases s.len(),
{
    if s.len() > 0 {
        lemma_batch_partition(s.drop_last());
    }
}

/// Law: a batch of well-formed elements only decodes whole and in place —
/// no failures, one record shape per element, the shape of element `i`
/// standing at position `i`.
pub proof fn lemma_all_valid_batch(s: Seq<JsonValue>)
    requires
        forall|i: int| 0 <= i < s.len() ==> element_shape(s[i]) is Some,
    ensures
        batch_shapes(s).len() == s.len(),
        failed_count(s) == 0,
        forall|i: int| 0 <= i < s.len() ==> batch_shapes(s)[i] == element_shape(s[i]).unwrap(),
    decreases s.len(),
{
    if s.len() > 0 {
        assert(forall|i: int|
            0 <= i < s.drop_last().len() ==> element_shape(s.drop_last()[i]) is Some);
        lemma_all_valid_batch(s.drop_last());
    }
}

/// Decode every element of a batch in order: the well-formed ones become
/// records, in array order; the malformed ones are counted and skipped.
pub fn decode_batch(elems: Vec<JsonValue>) -> (out: (Vec<Record>, usize))
    ensures
        records_match_shapes(out.0@, batch_shapes(elems@)),
        out.1 == failed_count(elems@),
{
    let ghost orig = elems@;
    let mut rest = elems;
    let mut records: Vec<Record> = Vec::new();
    let mut failed: usize = 0;
    let n = rest.len();
    proof {
        assert(orig.len() == n);
        assert(orig.take(0) =~= Seq::<JsonValue>::empty());
    }
    while rest.len() > 0
        invariant
            rest@.len() <= orig.len(),
            orig.len() <= usize::MAX,
            rest@ =~= orig.skip(orig.len() - rest@.len()),
            records_match_shapes(records@, batch_shapes(orig.take(orig.len() - rest@.len()))),
            failed == failed_count(orig.take(orig.len() - rest@.len())),
            failed <= orig.len() - rest@.len(),
        decreases rest@.len(),
    {
        let ghost done = orig.len() - rest@.len();
        let e = rest.remove(0);
        proof {
            assert(e == orig[done as int]);
            assert(rest@ =~= orig.skip(done as int + 1));
            assert(orig.take(done as int + 1).drop_last() =~= orig.take(done as int));
            assert(orig.take(done as int + 1).last() == orig[done as int]);
        }
        match decode_element(e) {
            Some(rec) => {
                records.push(rec);
            },
            None => {
                failed = failed + 1;
            },
        }
    }
    proof {
        assert(orig.take(orig.len() as int) =~= orig);
    }
    (records, failed)
}

/// How one whole delivery decodes.
pub enum DecodeOutcome {
    /// The payload was a JSON array: its records, and how many elements were
    /// malformed.
    Batch { records: Vec<Record>, failed: usize },
    /// The payload was not a JSON array at all: one whole-payload failure,
    /// zero records.
    PayloadError,
}

/// Decode a delivery's raw bytes: a JSON array yields a batch with a
/// per-element failure count; anything else is one whole-payload failure.
pub fn decode_delivery(body: &Vec<u8>) -> (r: DecodeOutcome)
    ensures
        (match parsed_json(body@) {
            Some(JsonValue::Arr(elems)) => r matches DecodeOutcome::Batch { records, failed }
                && records_match_shapes(records@, batch_shapes(elems@)) && failed == failed_count(
                elems@,
            ),
            _ => r is PayloadError,
        }),
{
    match parse_json(body) {
        Some(v) => match v {
            JsonValue::Arr(elems) => {
                let (records, failed) = decode_batch(elems);
                DecodeOutcome::Batch { records, failed }
            },
            _ => DecodeOutcome::PayloadError,
        },
        None => DecodeOutcome::PayloadError,
    }
}

} // verus!
