use std::cell::RefCell;

use log_drain::auth::{authenticate, decode_signature, mac, AuthOutcome};
use log_drain::controller::{failing_subset, Controller, Sink, SinkError};
use log_drain::counters::{bump, sat_add, Counters};
use log_drain::decode::{decode_batch, decode_delivery, decode_element, kind_from_name, DecodeOutcome};
use log_drain::json::JsonValue;
use log_drain::pipeline::handle_delivery;
use log_drain::queue::{enqueue_batch, Producer};
use log_drain::record::{Record, SourceKind};

fn hex_of(bytes: &[u8]) -> String {
    let mut s = String::new();
    for b in bytes {
        s.push_str(&format!("{:02x}", b));
    }
    s
}

fn obj(members: Vec<(&str, JsonValue)>) -> JsonValue {
    JsonValue::Obj(
        members
            .into_iter()
            .map(|(k, v)| (k.to_string(), v))
            .collect(),
    )
}

fn lambda_element(message: &str, timestamp: i64) -> JsonValue {
    obj(vec![
        ("source", JsonValue::Str("lambda".to_string())),
        ("message", JsonValue::Str(message.to_string())),
        ("timestamp", JsonValue::Int(timestamp)),
    ])
}

fn sample_record(message: &str) -> Record {
    match decode_element(lambda_element(message, 7)) {
        Some(r) => r,
        None => panic!("a well-formed element must decode"),
    }
}

// --- authenticator ---

#[test]
fn genuine_signature_verifies() {
    let payload = b"hello batch".to_vec();
    let secret = b"s3cr3t".to_vec();
    let tag = mac(&secret, &payload);
    assert_eq!(tag.len(), 20);
    let sig = hex_of(&tag);
    let mut c = Counters::new();
    let r = authenticate(&payload, Some(sig.as_str()), &secret, &mut c);
    assert_eq!(r, AuthOutcome::Verified);
    assert_eq!(c.sig_mismatch, 0);
    assert_eq!(c.sig_missing, 0);
    assert_eq!(c.sig_malformed, 0);
}

#[test]
fn foreign_secret_is_rejected() {
    let payload = b"hello batch".to_vec();
    let secret = b"s3cr3t".to_vec();
    let other = b"not-the-secret".to_vec();
    let sig = hex_of(&mac(&other, &payload));
    let mut c = Counters::new();
    let r = authenticate(&payload, Some(sig.as_str()), &secret, &mut c);
    assert_eq!(r, AuthOutcome::Mismatch);
    assert_eq!(c.sig_mismatch, 1);
}

#[test]
fn mac_depends_on_payload_and_secret() {
    let secret = b"k1".to_vec();
    let a = mac(&secret, &b"one".to_vec());
    let b = mac(&secret, &b"two".to_vec());
    assert_ne!(a, b);
    let c = mac(&b"k2".to_vec(), &b"one".to_vec());
    assert_ne!(a, c);
    assert_eq!(a, mac(&secret, &b"one".to_vec()));
}

#[test]
fn missing_signature_is_counted() {
    let payload = b"x".to_vec();
    let secret = b"s".to_vec();
    let mut c = Counters::new();
    let r = authenticate(&payload, None, &secret, &mut c);
    assert_eq!(r, AuthOutcome::MissingSignature);
    assert_eq!(c.sig_missing, 1);
    assert_eq!(c.sig_mismatch, 0);
}

#[test]
fn malformed_signature_is_counted_not_a_panic() {
    let payload = b"x".to_vec();
    let secret = b"s".to_vec();
    let mut c = Counters::new();
    assert_eq!(
        authenticate(&payload, Some("zz"), &secret, &mut c),
        AuthOutcome::MalformedSignature
    );
    let non_hex = "g".repeat(40);
    assert_eq!(
        authenticate(&payload, Some(non_hex.as_str()), &secret, &mut c),
        AuthOutcome::MalformedSignature
    );
    let too_long = "a".repeat(42);
    assert_eq!(
        authenticate(&payload, Some(too_long.as_str()), &secret, &mut c),
        AuthOutcome::MalformedSignature
    );
    assert_eq!(c.sig_malformed, 3);
}

#[test]
fn signature_decoding_is_exact() {
    let sig = "000102030405060708090a0b0c0d0e0f10111213";
    let decoded = decode_signature(sig).expect("forty hex digits decode");
    let expected: Vec<u8> = (0u8..20).collect();
    assert_eq!(decoded, expected);
    let upper = "000102030405060708090A0B0C0D0E0F10111213";
    assert_eq!(decode_signature(upper).expect("upper-case hex decodes"), expected);
    assert!(decode_signature("0001").is_none());
    assert!(decode_signature("").is_none());
}

// --- decoder ---

#[test]
fn well_formed_element_decodes_losslessly() {
    let e = obj(vec![
        ("source", JsonValue::Str("build".to_string())),
        ("message", JsonValue::Str("compiling".to_string())),
        ("timestamp", JsonValue::Int(1700000000)),
        ("level", JsonValue::Str("info".to_string())),
        ("deploymentId", JsonValue::Str("dpl_1".to_string())),
        ("projectId", JsonValue::Str("prj_1".to_string())),
        ("requestId", JsonValue::Str("req_1".to_string())),
        ("extraField", JsonValue::Int(5)),
    ]);
    let r = decode_element(e).expect("well-formed element decodes");
    assert_eq!(r.kind, SourceKind::Build);
    assert_eq!(r.timestamp, 1700000000);
    assert_eq!(r.message, "compiling");
    assert_eq!(r.level.as_deref(), Some("info"));
    assert_eq!(r.deployment_id.as_deref(), Some("dpl_1"));
    assert_eq!(r.project_id.as_deref(), Some("prj_1"));
    assert_eq!(r.request_id.as_deref(), Some("req_1"));
    assert_eq!(r.payload.len(), 8);
    assert_eq!(r.payload[7], ("extraField".to_string(), JsonValue::Int(5)));
}

#[test]
fn unknown_discriminant_is_malformed() {
    let e = obj(vec![
        ("source", JsonValue::Str("unknown-kind".to_string())),
        ("message", JsonValue::Str("x".to_string())),
        ("timestamp", JsonValue::Int(1)),
    ]);
    assert!(decode_element(e).is_none());
    assert!(decode_element(JsonValue::Int(3)).is_none());
    assert!(decode_element(obj(vec![("message", JsonValue::Str("x".to_string()))])).is_none());
}

#[test]
fn every_source_kind_name_maps() {
    assert_eq!(kind_from_name("build"), Some(SourceKind::Build));
    assert_eq!(kind_from_name("lambda"), Some(SourceKind::Lambda));
    assert_eq!(kind_from_name("edge"), Some(SourceKind::Edge));
    assert_eq!(kind_from_name("static"), Some(SourceKind::Static));
    assert_eq!(kind_from_name("external"), Some(SourceKind::External));
    assert_eq!(kind_from_name("Lambda"), None);
    assert_eq!(kind_from_name(""), None);
}

#[test]
fn batch_keeps_valid_elements_in_order() {
    let elems = vec![
        lambda_element("first", 1),
        JsonValue::Str("not an object".to_string()),
        lambda_element("second", 2),
        obj(vec![("source", JsonValue::Str("lambda".to_string()))]),
        lambda_element("third", 3),
    ];
    let (records, failed) = decode_batch(elems);
    assert_eq!(records.len(), 3);
    assert_eq!(failed, 2);
    assert_eq!(records[0].message, "first");
    assert_eq!(records[1].message, "second");
    assert_eq!(records[2].message, "third");
}

#[test]
fn empty_batch_decodes_empty() {
    let (records, failed) = decode_batch(Vec::new());
    assert!(records.is_empty());
    assert_eq!(failed, 0);
}

#[test]
fn invalid_json_is_one_whole_payload_failure() {
    match decode_delivery(&b"{not json".to_vec()) {
        DecodeOutcome::PayloadError => {}
        DecodeOutcome::Batch { .. } => panic!("invalid JSON must fail whole"),
    }
    match decode_delivery(&b"{\"a\": 1}".to_vec()) {
        DecodeOutcome::PayloadError => {}
        DecodeOutcome::Batch { .. } => panic!("a non-array payload must fail whole"),
    }
}

#[test]
fn parsed_array_decodes_elementwise() {
    let body = b"[{\"source\":\"edge\",\"message\":\"hit\",\"timestamp\":42},17,{\"source\":\"lambda\",\"message\":\"run\",\"timestamp\":1.5}]".to_vec();
    match decode_delivery(&body) {
        DecodeOutcome::Batch { records, failed } => {
            assert_eq!(records.len(), 1);
            assert_eq!(failed, 2);
            assert_eq!(records[0].kind, SourceKind::Edge);
            assert_eq!(records[0].message, "hit");
            assert_eq!(records[0].timestamp, 42);
        }
        DecodeOutcome::PayloadError => panic!("a JSON array must yield a batch"),
    }
}

#[test]
fn duplicate_json_keys_keep_the_last_value() {
    // serde_json's map keeps one member per name, the last one written.
    let body = b"[{\"source\":\"lambda\",\"message\":\"a\",\"message\":\"b\",\"timestamp\":1}]"
        .to_vec();
    match decode_delivery(&body) {
        DecodeOutcome::Batch { records, failed } => {
            assert_eq!(failed, 0);
            assert_eq!(records[0].message, "b");
        }
        DecodeOutcome::PayloadError => panic!("a JSON array must yield a batch"),
    }
}

#[test]
fn lookup_takes_the_first_member_so_named() {
    // The decoded-object model itself admits duplicate names; the first one
    // scanned decides, even when it holds the wrong shape.
    let e = obj(vec![
        ("source", JsonValue::Str("lambda".to_string())),
        ("message", JsonValue::Str("first".to_string())),
        ("message", JsonValue::Str("second".to_string())),
        ("timestamp", JsonValue::Int(1)),
    ]);
    let r = decode_element(e).expect("well-formed element decodes");
    assert_eq!(r.message, "first");

    let bad = obj(vec![
        ("source", JsonValue::Str("lambda".to_string())),
        ("message", JsonValue::Int(9)),
        ("message", JsonValue::Str("second".to_string())),
        ("timestamp", JsonValue::Int(1)),
    ]);
    assert!(decode_element(bad).is_none());
}

// --- counters ---

#[test]
fn counters_saturate_at_the_top() {
    assert_eq!(bump(0), 1);
    assert_eq!(bump(u64::MAX), u64::MAX);
    assert_eq!(sat_add(10, 5), 15);
    assert_eq!(sat_add(u64::MAX - 1, 5), u64::MAX);
}

// --- queue ---

#[test]
fn enqueue_is_immediate_and_ordered_without_a_consumer() {
    // The consumer never runs while we enqueue: an arbitrarily slow sink.
    // Ingestion still takes every record at once, in order.
    let (tx, mut rx) = tokio::sync::mpsc::unbounded_channel::<Record>();
    let mut q = Producer::new(tx);
    let mut batch = Vec::new();
    for i in 0..1000 {
        batch.push(sample_record(&format!("m{}", i)));
    }
    let queued = enqueue_batch(&mut q, batch);
    assert_eq!(queued, 1000);
    for i in 0..1000 {
        let rec = rx.try_recv().expect("every queued record is there");
        assert_eq!(rec.message, format!("m{}", i));
    }
    assert!(rx.try_recv().is_err());
}

#[test]
fn enqueue_after_shutdown_drops_without_failing() {
    let (tx, rx) = tokio::sync::mpsc::unbounded_channel::<Record>();
    drop(rx);
    let mut q = Producer::new(tx);
    let queued = enqueue_batch(&mut q, vec![sample_record("late"), sample_record("later")]);
    assert_eq!(queued, 0);
}

// --- controller ---

struct MockSink {
    fail: bool,
    calls: RefCell<Vec<String>>,
}

impl MockSink {
    fn new(fail: bool) -> MockSink {
        MockSink { fail, calls: RefCell::new(Vec::new()) }
    }
}

impl Sink for MockSink {
    fn init(&self) -> Result<(), SinkError> {
        Ok(())
    }

    fn deliver(&self, rec: &Record) -> Result<(), SinkError> {
        self.calls.borrow_mut().push(rec.message.clone());
        if self.fail {
            Err(SinkError { message: "backend refused".to_string() })
        } else {
            Ok(())
        }
    }
}

fn running_controller(sinks: Vec<MockSink>) -> Controller<MockSink> {
    let names = (0..sinks.len()).map(|i| format!("sink{}", i)).collect();
    let mut ctl = Controller::new(sinks, names);
    ctl.init().expect("mock sinks initialize");
    ctl.begin_run();
    ctl
}

#[test]
fn one_failing_sink_never_withholds_from_the_others() {
    let sinks = vec![MockSink::new(false), MockSink::new(true), MockSink::new(false)];
    let mut ctl = running_controller(sinks);
    let rec = sample_record("fan out");
    let outcomes = ctl.dispatch(&rec);
    assert_eq!(outcomes, vec![true, false, true]);
    for s in &ctl.sinks {
        // every sink was invoked exactly once, the failing one included
        assert_eq!(s.calls.borrow().as_slice(), ["fan out"]);
    }
    assert_eq!(ctl.failures, vec![0, 1, 0]);
    let fails = failing_subset(&outcomes);
    assert_eq!(fails, vec![1]);
}

#[test]
fn failing_subset_is_exact_and_ordered() {
    let outcomes = vec![false, true, false, false, true];
    assert_eq!(failing_subset(&outcomes), vec![0, 2, 3]);
    assert_eq!(failing_subset(&vec![true, true]), Vec::<usize>::new());
    assert_eq!(failing_subset(&Vec::new()), Vec::<usize>::new());
}

#[test]
fn repeated_dispatch_keeps_failing_sinks_registered() {
    let sinks = vec![MockSink::new(true), MockSink::new(false)];
    let mut ctl = running_controller(sinks);
    let rec = sample_record("again");
    for _ in 0..3 {
        ctl.dispatch(&rec);
    }
    assert_eq!(ctl.sinks[0].calls.borrow().len(), 3);
    assert_eq!(ctl.sinks[1].calls.borrow().len(), 3);
    assert_eq!(ctl.failures, vec![3, 0]);
}

struct FailingInit;

impl Sink for FailingInit {
    fn init(&self) -> Result<(), SinkError> {
        Err(SinkError { message: "no session".to_string() })
    }

    fn deliver(&self, _rec: &Record) -> Result<(), SinkError> {
        Ok(())
    }
}

#[test]
fn an_empty_controller_initializes_and_runs() {
    let mut ctl: Controller<MockSink> = Controller::new(Vec::new(), Vec::new());
    ctl.init().expect("with no sinks there is nothing that can fail");
    ctl.begin_run();
    let outcomes = ctl.dispatch(&sample_record("nobody listens"));
    assert!(outcomes.is_empty());
    assert!(failing_subset(&outcomes).is_empty());
}

#[test]
fn a_sink_that_cannot_initialize_is_fatal_at_startup() {
    let mut ctl = Controller::new(vec![FailingInit], vec!["broken".to_string()]);
    let r = ctl.init();
    assert!(r.is_err());
    assert_eq!(r.err().map(|e| e.message), Some("no session".to_string()));
}

// --- the whole pipeline ---

#[test]
fn authenticated_delivery_queues_records_and_counts_failures() {
    let body =
        b"[{\"source\":\"lambda\",\"message\":\"ok\",\"timestamp\":1}, {\"source\":\"unknown-kind\",\"x\":1}]"
            .to_vec();
    let secret = b"shared".to_vec();
    let sig = hex_of(&mac(&secret, &body));
    let (tx, mut rx) = tokio::sync::mpsc::unbounded_channel::<Record>();
    let mut q = Producer::new(tx);
    let mut c = Counters::new();
    let rep = handle_delivery(&mut q, &body, Some(sig.as_str()), &secret, &mut c);
    assert_eq!(rep.auth, AuthOutcome::Verified);
    assert_eq!(rep.queued, 1);
    assert_eq!(rep.decode_failures, 1);
    assert!(!rep.payload_failed);
    assert_eq!(c.element_failures, 1);
    assert_eq!(c.sig_mismatch, 0);
    let rec = rx.try_recv().expect("the one good record is queued");
    assert_eq!(rec.message, "ok");
    assert_eq!(rec.kind, SourceKind::Lambda);
    assert_eq!(rec.timestamp, 1);
    assert!(rx.try_recv().is_err());
}

#[test]
fn wrong_signature_is_acknowledged_but_nothing_is_queued() {
    let body =
        b"[{\"source\":\"lambda\",\"message\":\"ok\",\"timestamp\":1}, {\"source\":\"unknown-kind\",\"x\":1}]"
            .to_vec();
    let secret = b"shared".to_vec();
    let sig = hex_of(&mac(&secret, &b"different bytes".to_vec()));
    let (tx, mut rx) = tokio::sync::mpsc::unbounded_channel::<Record>();
    let mut q = Producer::new(tx);
    let mut c = Counters::new();
    let rep = handle_delivery(&mut q, &body, Some(sig.as_str()), &secret, &mut c);
    assert_eq!(rep.auth, AuthOutcome::Mismatch);
    assert_eq!(rep.queued, 0);
    assert_eq!(rep.decode_failures, 0);
    assert_eq!(c.sig_mismatch, 1);
    assert_eq!(c.element_failures, 0);
    assert!(rx.try_recv().is_err());
}

#[test]
fn authenticated_garbage_is_one_payload_failure() {
    let body = b"this is not json".to_vec();
    let secret = b"shared".to_vec();
    let sig = hex_of(&mac(&secret, &body));
    let (tx, mut rx) = tokio::sync::mpsc::unbounded_channel::<Record>();
    let mut q = Producer::new(tx);
    let mut c = Counters::new();
    let rep = handle_delivery(&mut q, &body, Some(sig.as_str()), &secret, &mut c);
    assert_eq!(rep.auth, AuthOutcome::Verified);
    assert!(rep.payload_failed);
    assert_eq!(rep.queued, 0);
    assert_eq!(c.payload_failures, 1);
    assert!(rx.try_recv().is_err());
}
