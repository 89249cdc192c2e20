use jenkins_api::builds::BuildStatus;
use jenkins_api::error::DecodeError;
use jenkins_api::open::decode_common_build;
use jenkins_api::value::JsonValue;

fn s(x: &str) -> JsonValue {
    JsonValue::Str(x.to_string())
}

fn entry(k: &str, v: JsonValue) -> (String, JsonValue) {
    (k.to_string(), v)
}

fn common_entries(number: i64, url: &str) -> Vec<(String, JsonValue)> {
    vec![
        entry("url", s(url)),
        entry("number", JsonValue::Int(number)),
        entry("duration", JsonValue::Int(10)),
        entry("estimatedDuration", JsonValue::Int(12)),
        entry("timestamp", JsonValue::Int(1500000000)),
        entry("keepLog", JsonValue::Bool(false)),
        entry("result", s("SUCCESS")),
        entry("displayName", s("#3")),
        entry("fullDisplayName", s("job #3")),
        entry("building", JsonValue::Bool(false)),
        entry("id", s("3")),
        entry("queueId", JsonValue::Int(7)),
        entry("actions", JsonValue::Arr(vec![])),
        entry("artifacts", JsonValue::Arr(vec![])),
    ]
}

fn open_doc() -> JsonValue {
    let mut fields = common_entries(3, "http://x/3/");
    fields.push(entry("customField", s("abc")));
    JsonValue::Obj(fields)
}

#[test]
fn open_decode_keeps_unrecognized_field_in_overflow() {
    let b = decode_common_build(open_doc()).unwrap();
    assert_eq!(b.common.number, 3);
    assert_eq!(b.common.url, "http://x/3/");
    assert_eq!(b.class, None);
    assert_eq!(b.overflow.len(), 1);
    assert_eq!(b.overflow[0].0, "customField");
    assert_eq!(b.overflow[0].1, s("abc"));
}

#[test]
fn open_decode_reads_discriminant_into_class() {
    let mut fields = vec![entry("_class", s("hudson.model.FreeStyleBuild"))];
    fields.extend(common_entries(3, "http://x/3/"));
    fields.push(entry("extra", JsonValue::Int(5)));
    let b = decode_common_build(JsonValue::Obj(fields)).unwrap();
    assert_eq!(b.class.as_deref(), Some("hudson.model.FreeStyleBuild"));
    // the discriminant is declared, so it does not sit in the overflow
    assert_eq!(b.overflow.len(), 1);
    assert_eq!(b.overflow[0].0, "extra");
}

#[test]
fn open_decode_never_fails_on_unrecognized_fields() {
    let mut fields = common_entries(3, "http://x/3/");
    fields.push(entry("alpha", JsonValue::Null));
    fields.push(entry("beta", JsonValue::Arr(vec![JsonValue::Int(1)])));
    fields.push(entry("gamma", JsonValue::Obj(vec![entry("inner", s("x"))])));
    let b = decode_common_build(JsonValue::Obj(fields)).unwrap();
    assert_eq!(b.overflow.len(), 3);
    assert_eq!(b.overflow[0].0, "alpha");
    assert_eq!(b.overflow[1].0, "beta");
    assert_eq!(b.overflow[2].0, "gamma");
}

#[test]
fn open_decode_fails_on_ill_typed_declared_field() {
    let mut fields: Vec<(String, JsonValue)> = Vec::new();
    for e in common_entries(3, "http://x/3/") {
        if e.0 == "keepLog" {
            fields.push(entry("keepLog", s("yes")));
        } else {
            fields.push(e);
        }
    }
    let r = decode_common_build(JsonValue::Obj(fields));
    assert!(matches!(r, Err(DecodeError::StructuralDecodeError { .. })));
}

#[test]
fn open_decode_defaults_an_absent_declared_field() {
    let fields: Vec<(String, JsonValue)> = common_entries(3, "http://x/3/")
        .into_iter()
        .filter(|e| e.0 != "timestamp")
        .collect();
    let b = decode_common_build(JsonValue::Obj(fields)).unwrap();
    assert_eq!(b.common.timestamp, 0);
    assert_eq!(b.common.number, 3);
}

#[test]
fn open_decode_succeeds_on_sparse_payload() {
    // only two declared fields plus one custom field: the other slots take
    // their defaults and nothing is dropped
    let doc = JsonValue::Obj(vec![
        entry("url", s("http://x/3/")),
        entry("number", JsonValue::Int(3)),
        entry("customField", s("abc")),
    ]);
    let b = decode_common_build(doc).unwrap();
    assert_eq!(b.common.number, 3);
    assert_eq!(b.common.url, "http://x/3/");
    assert_eq!(b.overflow.len(), 1);
    assert_eq!(b.overflow[0].0, "customField");
    assert_eq!(b.overflow[0].1, s("abc"));
    assert_eq!(b.common.result, BuildStatus::NotBuilt);
    assert_eq!(b.common.duration, 0);
    assert_eq!(b.common.display_name, "");
    assert!(!b.common.building);
    assert_eq!(b.common.description, None);
}

#[test]
fn open_decode_keeps_wide_number_in_overflow() {
    let mut fields = common_entries(3, "http://x/3/");
    fields.push(entry("score", JsonValue::BigNum("1.5".to_string())));
    let b = decode_common_build(JsonValue::Obj(fields)).unwrap();
    assert_eq!(b.overflow[0].1, JsonValue::BigNum("1.5".to_string()));
    let encoded = match b.encode() {
        JsonValue::Obj(entries) => entries,
        other => panic!("re-encode must give an object: {:?}", other),
    };
    assert_eq!(
        lookup(&encoded, "score"),
        Some(&JsonValue::BigNum("1.5".to_string()))
    );
}

#[test]
fn open_accessors_read_fields_directly() {
    let b = decode_common_build(open_doc()).unwrap();
    assert_eq!(b.url(), "http://x/3/");
    assert_eq!(b.number(), 3);
    assert_eq!(b.duration(), 10);
    assert_eq!(b.timestamp(), 1500000000);
    assert_eq!(b.result(), BuildStatus::Success);
    assert_eq!(b.estimated_duration(), 12);
    assert!(!b.keep_log());
    assert_eq!(b.display_name(), "#3");
    assert_eq!(b.full_display_name(), "job #3");
    assert_eq!(b.description(), &None);
    assert!(!b.building());
    assert_eq!(b.id(), "3");
    assert_eq!(b.queue_id(), 7);
    assert!(b.actions().is_empty());
    assert!(b.artifacts().is_empty());
}

#[test]
fn open_decode_reads_null_discriminant_as_absent() {
    let mut fields = vec![entry("_class", JsonValue::Null)];
    fields.extend(common_entries(3, "http://x/3/"));
    let b = decode_common_build(JsonValue::Obj(fields)).unwrap();
    assert_eq!(b.class, None);
    assert!(b.overflow.is_empty());
}

#[test]
fn open_decode_is_deterministic() {
    let a = decode_common_build(open_doc()).unwrap();
    let b = decode_common_build(open_doc()).unwrap();
    assert_eq!(a, b);
}

fn lookup<'a>(entries: &'a [(String, JsonValue)], k: &str) -> Option<&'a JsonValue> {
    entries.iter().find(|e| e.0 == k).map(|e| &e.1)
}

#[test]
fn round_trip_reproduces_every_key_value_equal() {
    let source = match open_doc() {
        JsonValue::Obj(entries) => entries,
        _ => unreachable!(),
    };
    let b = decode_common_build(open_doc()).unwrap();
    let encoded = match b.encode() {
        JsonValue::Obj(entries) => entries,
        other => panic!("re-encode must give an object: {:?}", other),
    };
    for (k, v) in &source {
        assert_eq!(lookup(&encoded, k), Some(v), "key {} changed", k);
    }
    for (k, _) in &encoded {
        assert!(lookup(&source, k).is_some(), "key {} invented", k);
    }
    assert_eq!(source.len(), encoded.len());
}

fn classed_doc_entries() -> Vec<(String, JsonValue)> {
    let mut fields = vec![entry("_class", s("hudson.model.FreeStyleBuild"))];
    fields.extend(common_entries(3, "http://x/3/"));
    fields.push(entry("description", s("nightly")));
    fields.push(entry("customField", s("abc")));
    fields
}

#[test]
fn round_trip_keeps_description_and_class() {
    let fields = classed_doc_entries();
    let b = decode_common_build(JsonValue::Obj(classed_doc_entries())).unwrap();
    assert_eq!(b.common.description.as_deref(), Some("nightly"));
    let encoded = match b.encode() {
        JsonValue::Obj(entries) => entries,
        other => panic!("re-encode must give an object: {:?}", other),
    };
    for (k, v) in &fields {
        assert_eq!(lookup(&encoded, k), Some(v), "key {} changed", k);
    }
    assert_eq!(fields.len(), encoded.len());
}

#[test]
fn absent_description_decodes_to_none_and_is_not_reinvented() {
    let b = decode_common_build(open_doc()).unwrap();
    assert_eq!(b.common.description, None);
    let encoded = match b.encode() {
        JsonValue::Obj(entries) => entries,
        other => panic!("re-encode must give an object: {:?}", other),
    };
    assert!(lookup(&encoded, "description").is_none());
    assert!(lookup(&encoded, "_class").is_none());
}
