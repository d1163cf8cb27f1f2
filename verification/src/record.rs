//! The canonical in-process model of one log event.

use vstd::prelude::*;

use crate::json::JsonValue;

verus! {

/// The platform-defined discriminant naming which shape a log event uses.
#[derive(Clone, Copy, PartialEq, Eq, Structural, Debug)]
pub enum SourceKind {
    /// A build log line.
    Build,
    /// A serverless-function log line.
    Lambda,
    /// An edge-function log line.
    Edge,
    /// A static-asset request log line.
    Static,
    /// An external or proxied request log line.
    External,
}

/// One decoded log event. Whatever its source kind, a record carries the
/// discriminant, timestamp and message losslessly; the member list it was
/// decoded from stays in `payload`, so source-kind-specific fields are
/// preserved for sinks that want them.
#[derive(Debug, PartialEq)]
pub struct Record {
    pub kind: SourceKind,
    pub timestamp: i64,
    pub level: Option<String>,
    pub message: String,
    pub deployment_id: Option<String>,
    pub project_id: Option<String>,
    pub request_id: Option<String>,
    /// Every member of the element this record was decoded from.
    pub payload: Vec<(String, JsonValue)>,
}

/// The view-level picture of one record: what its fields say, with text taken
/// as character sequences.
pub ghost struct RecordShape {
    pub kind: SourceKind,
    pub timestamp: i64,
    pub level: Option<Seq<char>>,
    pub message: Seq<char>,
    pub deployment_id: Option<Seq<char>>,
    pub project_id: Option<Seq<char>>,
    pub request_id: Option<Seq<char>>,
    pub payload: Seq<(String, JsonValue)>,
}

/// The view of an optional piece of text.
pub open spec fn opt_str_view(o: Option<String>) -> Option<Seq<char>> {
    match o {
        Some(s) => Some(s@),
        None => None,
    }
}

/// Whether a record says exactly what a shape says.
pub open spec fn record_matches(r: Record, m: RecordShape) -> bool {
    &&& r.kind == m.kind
    &&& r.timestamp == m.timestamp
    &&& opt_str_view(r.level) == m.level
    &&& r.message@ == m.message
    &&& opt_str_view(r.deployment_id) == m.deployment_id
    &&& opt_str_view(r.project_id) == m.project_id
    &&& opt_str_view(r.request_id) == m.request_id
    &&& r.payload@ == m.payload
}

/// Whether a run of records says exactly what a run of shapes says, in order.
pub open spec fn records_match_shapes(rs: Seq<Record>, ms: Seq<RecordShape>) -> bool {
    &&& rs.len() == ms.len()
    &&& forall|i: int| 0 <= i < rs.len() ==> record_matches(rs[i], ms[i])
}

} // verus!
