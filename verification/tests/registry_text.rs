use jenkins_api::builds::BuildStatus;
use jenkins_api::closed::Build;
use jenkins_api::error::DecodeError;
use jenkins_api::registry::{default_build_registry, ClassRegistry};
use jenkins_api::text::{decode_build_text, decode_common_build_text, parse_document};
use jenkins_api::value::JsonValue;

#[test]
fn registry_lookup_finds_registration() {
    let mut r = ClassRegistry::new();
    r.register("a.B".to_string(), "B".to_string());
    r.register("a.C".to_string(), "C".to_string());
    assert_eq!(r.lookup("a.B").map(String::as_str), Some("B"));
    assert_eq!(r.lookup("a.C").map(String::as_str), Some("C"));
    assert_eq!(r.lookup("a.D"), None);
}

#[test]
fn registry_first_registration_wins() {
    let mut r = ClassRegistry::new();
    r.register("a.B".to_string(), "B".to_string());
    r.register("a.B".to_string(), "other".to_string());
    assert_eq!(r.lookup("a.B").map(String::as_str), Some("B"));
}

#[test]
fn default_registry_knows_the_shapes() {
    let r = default_build_registry();
    assert_eq!(
        r.lookup("hudson.model.FreeStyleBuild").map(String::as_str),
        Some("FreeStyleBuild")
    );
    assert_eq!(
        r.lookup("hudson.matrix.MatrixRun").map(String::as_str),
        Some("MatrixRun")
    );
    assert_eq!(r.lookup("some.future.PluginBuild"), None);
}

const FREESTYLE_TEXT: &str = r##"{
  "_class": "hudson.model.FreeStyleBuild",
  "url": "http://x/1/",
  "number": 1,
  "duration": 10,
  "estimatedDuration": 12,
  "timestamp": 1500000000,
  "keepLog": false,
  "result": "SUCCESS",
  "displayName": "#1",
  "fullDisplayName": "job #1",
  "building": false,
  "id": "1",
  "queueId": 7,
  "actions": [],
  "artifacts": [],
  "builtOn": "agent-7",
  "changeSet": null
}"##;

#[test]
fn parse_document_reads_real_json() {
    let doc = parse_document("{\"a\": [1, true, null, \"x\"]}").unwrap();
    match doc {
        JsonValue::Obj(entries) => {
            assert_eq!(entries.len(), 1);
            assert_eq!(entries[0].0, "a");
            assert_eq!(
                entries[0].1,
                JsonValue::Arr(vec![
                    JsonValue::Int(1),
                    JsonValue::Bool(true),
                    JsonValue::Null,
                    JsonValue::Str("x".to_string()),
                ])
            );
        }
        other => panic!("expected an object: {:?}", other),
    }
}

#[test]
fn parse_document_rejects_bad_text() {
    assert_eq!(parse_document("{\"a\": "), None);
    assert_eq!(parse_document("not json"), None);
}

#[test]
fn parse_document_keeps_wide_numbers_by_spelling() {
    let doc = parse_document("{\"a\": 1.5, \"b\": 9223372036854775808}").unwrap();
    match doc {
        JsonValue::Obj(entries) => {
            assert_eq!(entries[0].1, JsonValue::BigNum("1.5".to_string()));
            assert_eq!(
                entries[1].1,
                JsonValue::BigNum("9223372036854775808".to_string())
            );
        }
        other => panic!("expected an object: {:?}", other),
    }
}

#[test]
fn decode_build_text_decodes_freestyle() {
    let b = decode_build_text(FREESTYLE_TEXT).unwrap();
    match &b {
        Build::FreeStyleBuild {
            common, built_on, ..
        } => {
            assert_eq!(common.number, 1);
            assert_eq!(common.result, BuildStatus::Success);
            assert_eq!(built_on, "agent-7");
        }
        other => panic!("wrong shape: {:?}", other),
    }
}

#[test]
fn decode_build_text_reports_syntax() {
    assert_eq!(decode_build_text("{"), Err(DecodeError::Syntax));
}

#[test]
fn decode_common_build_text_keeps_overflow() {
    let text = r##"{
      "url": "http://x/3/",
      "number": 3,
      "duration": 10,
      "estimatedDuration": 12,
      "timestamp": 1500000000,
      "keepLog": false,
      "result": "SUCCESS",
      "displayName": "#3",
      "fullDisplayName": "job #3",
      "building": false,
      "id": "3",
      "queueId": 7,
      "actions": [],
      "artifacts": [],
      "customField": "abc"
    }"##;
    let b = decode_common_build_text(text).unwrap();
    assert_eq!(b.common.number, 3);
    assert_eq!(b.overflow.len(), 1);
    assert_eq!(b.overflow[0].0, "customField");
    assert_eq!(b.overflow[0].1, JsonValue::Str("abc".to_string()));
}
