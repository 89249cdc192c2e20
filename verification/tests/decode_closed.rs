use jenkins_api::closed::{decode_build, Build};
use jenkins_api::error::DecodeError;
use jenkins_api::value::JsonValue;

fn s(x: &str) -> JsonValue {
    JsonValue::Str(x.to_string())
}

fn entry(k: &str, v: JsonValue) -> (String, JsonValue) {
    (k.to_string(), v)
}

fn common_entries(number: i64, url: &str) -> Vec<(String, JsonValue)> {
    vec![
        entry("url", s(url)),
        entry("number", JsonValue::Int(number)),
        entry("duration", JsonValue::Int(10)),
        entry("estimatedDuration", JsonValue::Int(12)),
        entry("timestamp", JsonValue::Int(1500000000)),
        entry("keepLog", JsonValue::Bool(false)),
        entry("result", s("SUCCESS")),
        entry("displayName", s("#1")),
        entry("fullDisplayName", s("job #1")),
        entry("building", JsonValue::Bool(false)),
        entry("id", s("1")),
        entry("queueId", JsonValue::Int(7)),
        entry("actions", JsonValue::Arr(vec![])),
        entry("artifacts", JsonValue::Arr(vec![])),
    ]
}

fn freestyle_doc() -> JsonValue {
    let mut fields = vec![entry("_class", s("hudson.model.FreeStyleBuild"))];
    fields.extend(common_entries(1, "http://x/1/"));
    fields.push(entry("builtOn", s("agent-7")));
    fields.push(entry("changeSet", JsonValue::Null));
    JsonValue::Obj(fields)
}

#[test]
fn known_tag_decodes_freestyle_shape() {
    let b = decode_build(freestyle_doc()).unwrap();
    match &b {
        Build::FreeStyleBuild {
            common,
            built_on,
            change_set,
        } => {
            assert_eq!(common.url, "http://x/1/");
            assert_eq!(common.number, 1);
            assert_eq!(built_on, "agent-7");
            assert_eq!(*change_set, JsonValue::Null);
        }
        other => panic!("wrong shape: {:?}", other),
    }
    assert_eq!(b.number().unwrap(), 1);
    assert_eq!(b.url().unwrap(), "http://x/1/");
    assert_eq!(b.variant_name(), "FreeStyleBuild");
}

#[test]
fn unknown_tag_decodes_fallback() {
    let mut fields = vec![entry("_class", s("some.future.PluginBuild"))];
    fields.push(entry("url", s("http://x/2/")));
    fields.push(entry("number", JsonValue::Int(2)));
    let doc = JsonValue::Obj(fields);
    let b = decode_build(doc).unwrap();
    match &b {
        Build::Unknown { class, payload } => {
            assert_eq!(class.as_deref(), Some("some.future.PluginBuild"));
            match payload {
                JsonValue::Obj(entries) => assert_eq!(entries.len(), 3),
                other => panic!("payload not kept: {:?}", other),
            }
        }
        other => panic!("expected the fallback variant: {:?}", other),
    }
    assert_eq!(b.variant_name(), "Unknown");
}

#[test]
fn fallback_common_field_read_fails_typed() {
    let doc = JsonValue::Obj(vec![
        entry("_class", s("some.future.PluginBuild")),
        entry("url", s("http://x/2/")),
        entry("number", JsonValue::Int(2)),
    ]);
    let b = decode_build(doc).unwrap();
    match b.number() {
        Err(DecodeError::InvalidObjectType { field, variant }) => {
            assert_eq!(field, "number");
            assert_eq!(variant, "Unknown");
        }
        other => panic!("expected InvalidObjectType: {:?}", other),
    }
    match b.result() {
        Err(DecodeError::InvalidObjectType { field, variant }) => {
            assert_eq!(field, "result");
            assert_eq!(variant, "Unknown");
        }
        other => panic!("expected InvalidObjectType: {:?}", other),
    }
}

#[test]
fn missing_discriminant_decodes_fallback() {
    let doc = JsonValue::Obj(common_entries(4, "http://x/4/"));
    let b = decode_build(doc).unwrap();
    assert!(matches!(b, Build::Unknown { class: None, .. }));
}

#[test]
fn duplicated_discriminant_reads_as_none_and_falls_back() {
    // a discriminant bound twice is no discriminant: the document is kept
    // verbatim under the fallback variant
    let doc = JsonValue::Obj(vec![
        entry("_class", s("hudson.model.FreeStyleBuild")),
        entry("_class", s("hudson.matrix.MatrixRun")),
        entry("url", s("http://x/2/")),
    ]);
    let b = decode_build(doc).unwrap();
    match b {
        Build::Unknown { class, payload } => {
            assert_eq!(class, None);
            assert!(matches!(payload, JsonValue::Obj(entries) if entries.len() == 3));
        }
        other => panic!("expected the fallback variant: {:?}", other),
    }
}

#[test]
fn non_object_decodes_fallback() {
    let b = decode_build(JsonValue::Int(3)).unwrap();
    match b {
        Build::Unknown { class, payload } => {
            assert_eq!(class, None);
            assert_eq!(payload, JsonValue::Int(3));
        }
        other => panic!("expected the fallback variant: {:?}", other),
    }
}

#[test]
fn known_tag_with_missing_field_fails_hard() {
    // a recognized discriminant with a missing required field must propagate
    // a structural failure, never fall back
    let mut fields = vec![entry("_class", s("hudson.model.FreeStyleBuild"))];
    fields.extend(common_entries(1, "http://x/1/"));
    fields.push(entry("changeSet", JsonValue::Null));
    // no builtOn
    let r = decode_build(JsonValue::Obj(fields));
    assert!(matches!(r, Err(DecodeError::StructuralDecodeError { .. })));
}

#[test]
fn known_tag_with_ill_typed_field_fails_hard() {
    let mut fields = vec![entry("_class", s("hudson.model.FreeStyleBuild"))];
    for e in common_entries(1, "http://x/1/") {
        if e.0 == "number" {
            fields.push(entry("number", s("one")));
        } else {
            fields.push(e);
        }
    }
    fields.push(entry("builtOn", s("agent-7")));
    fields.push(entry("changeSet", JsonValue::Null));
    let r = decode_build(JsonValue::Obj(fields));
    assert!(matches!(r, Err(DecodeError::StructuralDecodeError { .. })));
}

#[test]
fn duplicate_declared_field_fails_hard() {
    let mut fields = vec![entry("_class", s("hudson.model.FreeStyleBuild"))];
    fields.extend(common_entries(1, "http://x/1/"));
    fields.push(entry("url", s("http://x/other/")));
    fields.push(entry("builtOn", s("agent-7")));
    fields.push(entry("changeSet", JsonValue::Null));
    let r = decode_build(JsonValue::Obj(fields));
    assert!(matches!(r, Err(DecodeError::StructuralDecodeError { .. })));
}

#[test]
fn matrix_build_decodes_runs() {
    let mut fields = vec![entry("_class", s("hudson.matrix.MatrixBuild"))];
    fields.extend(common_entries(9, "http://x/9/"));
    fields.push(entry("changeSet", JsonValue::Null));
    fields.push(entry(
        "runs",
        JsonValue::Arr(vec![JsonValue::Obj(vec![
            entry("url", s("http://x/9/a/")),
            entry("number", JsonValue::Int(9)),
        ])]),
    ));
    let b = decode_build(JsonValue::Obj(fields)).unwrap();
    match b {
        Build::MatrixBuild { runs, .. } => {
            assert_eq!(runs.len(), 1);
            assert_eq!(runs[0].url, "http://x/9/a/");
            assert_eq!(runs[0].number, 9);
        }
        other => panic!("wrong shape: {:?}", other),
    }
}

#[test]
fn known_tag_with_missing_common_field_fails_hard() {
    // the closed strategy stays strict: a recognized discriminant demands
    // the full common-field set
    let mut fields = vec![entry("_class", s("hudson.model.FreeStyleBuild"))];
    for e in common_entries(1, "http://x/1/") {
        if e.0 != "timestamp" {
            fields.push(e);
        }
    }
    fields.push(entry("builtOn", s("agent-7")));
    fields.push(entry("changeSet", JsonValue::Null));
    let r = decode_build(JsonValue::Obj(fields));
    match r {
        Err(DecodeError::StructuralDecodeError { field }) => assert_eq!(field, "timestamp"),
        other => panic!("expected a structural failure: {:?}", other),
    }
}

#[test]
fn all_common_accessors_answer_on_a_typed_shape() {
    let b = decode_build(freestyle_doc()).unwrap();
    assert_eq!(b.estimated_duration().unwrap(), 12);
    assert!(!b.keep_log().unwrap());
    assert_eq!(b.display_name().unwrap(), "#1");
    assert_eq!(b.full_display_name().unwrap(), "job #1");
    assert_eq!(b.description().unwrap(), &None);
    assert!(!b.building().unwrap());
    assert_eq!(b.id().unwrap(), "1");
    assert_eq!(b.queue_id().unwrap(), 7);
    assert!(b.actions().unwrap().is_empty());
    assert!(b.artifacts().unwrap().is_empty());
}

#[test]
fn all_common_accessors_fail_typed_on_fallback() {
    let doc = JsonValue::Obj(vec![entry("_class", s("some.future.PluginBuild"))]);
    let b = decode_build(doc).unwrap();
    match b.display_name() {
        Err(DecodeError::InvalidObjectType { field, variant }) => {
            assert_eq!(field, "displayName");
            assert_eq!(variant, "Unknown");
        }
        other => panic!("expected InvalidObjectType: {:?}", other),
    }
    match b.artifacts() {
        Err(DecodeError::InvalidObjectType { field, variant }) => {
            assert_eq!(field, "artifacts");
            assert_eq!(variant, "Unknown");
        }
        other => panic!("expected InvalidObjectType: {:?}", other),
    }
}

#[test]
fn decode_is_deterministic() {
    let a = decode_build(freestyle_doc()).unwrap();
    let b = decode_build(freestyle_doc()).unwrap();
    assert_eq!(a, b);
}
