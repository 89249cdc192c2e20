use jenkins_api::builds::{
    decode_artifact, decode_short_build, parse_status, status_name, Artifact, BuildNumber,
    BuildStatus, ShortBuild,
};
use jenkins_api::error::DecodeError;
use jenkins_api::user::{decode_short_user, ShortUser};
use jenkins_api::value::JsonValue;

fn s(x: &str) -> JsonValue {
    JsonValue::Str(x.to_string())
}

fn entry(k: &str, v: JsonValue) -> (String, JsonValue) {
    (k.to_string(), v)
}

#[test]
fn short_build_decodes_direct_fields() {
    let doc = JsonValue::Obj(vec![
        entry("url", s("http://x/5/")),
        entry("number", JsonValue::Int(5)),
        entry("ignored", JsonValue::Bool(true)),
    ]);
    let b = decode_short_build(doc).unwrap();
    assert_eq!(
        b,
        ShortBuild {
            url: "http://x/5/".to_string(),
            number: 5
        }
    );
}

#[test]
fn short_build_number_out_of_range_fails() {
    let doc = JsonValue::Obj(vec![
        entry("url", s("http://x/5/")),
        entry("number", JsonValue::Int(-1)),
    ]);
    assert!(matches!(
        decode_short_build(doc),
        Err(DecodeError::StructuralDecodeError { .. })
    ));
    let doc = JsonValue::Obj(vec![
        entry("url", s("http://x/5/")),
        entry("number", JsonValue::Int(4294967296)),
    ]);
    assert!(matches!(
        decode_short_build(doc),
        Err(DecodeError::StructuralDecodeError { .. })
    ));
}

#[test]
fn short_user_decodes_direct_fields() {
    let doc = JsonValue::Obj(vec![
        entry("fullName", s("Jane Doe")),
        entry("absoluteUrl", s("http://x/user/jane/")),
    ]);
    let u = decode_short_user(doc).unwrap();
    assert_eq!(
        u,
        ShortUser {
            full_name: "Jane Doe".to_string(),
            absolute_url: "http://x/user/jane/".to_string()
        }
    );
}

#[test]
fn short_user_missing_field_fails() {
    let doc = JsonValue::Obj(vec![entry("fullName", s("Jane Doe"))]);
    assert!(matches!(
        decode_short_user(doc),
        Err(DecodeError::StructuralDecodeError { .. })
    ));
}

#[test]
fn artifact_decodes_direct_fields() {
    let doc = JsonValue::Obj(vec![
        entry("displayPath", s("out/a.txt")),
        entry("fileName", s("a.txt")),
        entry("relativePath", s("target/out/a.txt")),
    ]);
    let a = decode_artifact(doc).unwrap();
    assert_eq!(
        a,
        Artifact {
            display_path: "out/a.txt".to_string(),
            file_name: "a.txt".to_string(),
            relative_path: "target/out/a.txt".to_string()
        }
    );
}

#[test]
fn status_parses_every_spelling() {
    assert_eq!(parse_status("SUCCESS"), Some(BuildStatus::Success));
    assert_eq!(parse_status("UNSTABLE"), Some(BuildStatus::Unstable));
    assert_eq!(parse_status("FAILURE"), Some(BuildStatus::Failure));
    assert_eq!(parse_status("NOT_BUILT"), Some(BuildStatus::NotBuilt));
    assert_eq!(parse_status("ABORTED"), Some(BuildStatus::Aborted));
    assert_eq!(parse_status("RUNNING"), None);
    assert_eq!(parse_status("success"), None);
}

#[test]
fn status_name_round_trips() {
    for st in [
        BuildStatus::Success,
        BuildStatus::Unstable,
        BuildStatus::Failure,
        BuildStatus::NotBuilt,
        BuildStatus::Aborted,
    ] {
        assert_eq!(parse_status(status_name(st)), Some(st));
    }
}

#[test]
fn status_defaults_to_not_built() {
    assert_eq!(BuildStatus::default(), BuildStatus::NotBuilt);
}

#[test]
fn build_number_converts_from_integers() {
    assert_eq!(BuildNumber::from(7u32), BuildNumber(7));
    assert_eq!(BuildNumber::from(7u64), BuildNumber(7));
    assert_eq!(BuildNumber::from(7i32), BuildNumber(7));
    assert_eq!(BuildNumber::from(7i64), BuildNumber(7));
    assert_eq!(BuildNumber::from(7u8), BuildNumber(7));
    assert_eq!(BuildNumber::from(7u16), BuildNumber(7));
    assert_eq!(BuildNumber::from(7i8), BuildNumber(7));
    assert_eq!(BuildNumber::from(7i16), BuildNumber(7));
}
