//! Leaf build types: short references, build status, artifacts, and the
//! build-number helper. Their decoders map declared fields directly.
use vstd::prelude::*;

use crate::error::{structural, structural_key, DecodeError};
use crate::value::{
    at_most_once, has_key, lemma_key_literals, lemma_push_keys, lemma_sub_keys, str_eq,
    str_field, str_inv, u32_field, u32_inv, JsonValue,
};

verus! {

/// Short build reference used in lists and links from other structs.
#[derive(Debug, PartialEq)]
pub struct ShortBuild {
    /// URL for the build
    pub url: String,
    /// Build number
    pub number: u32,
}

/// Status of a build.
#[derive(Debug, PartialEq, Eq, Structural, Clone, Copy)]
pub enum BuildStatus {
    /// Successful build
    Success,
    /// Unstable build
    Unstable,
    /// Failed build
    Failure,
    /// Not yet built
    NotBuilt,
    /// Aborted build
    Aborted,
}

impl Default for BuildStatus {
    fn default() -> (r: BuildStatus)
        ensures
            r == BuildStatus::NotBuilt,
    {
        BuildStatus::NotBuilt
    }
}

/// A file archived by a build.
#[derive(Debug, PartialEq)]
pub struct Artifact {
    /// Displayed path
    pub display_path: String,
    /// File name
    pub file_name: String,
    /// Path to the file
    pub relative_path: String,
}

/// Helper type to act on a build.
#[derive(Debug, PartialEq, Eq, Structural, Clone, Copy)]
pub struct BuildNumber(pub u32);

impl From<u32> for BuildNumber {
    fn from(v: u32) -> (r: BuildNumber) {
        BuildNumber(v)
    }
}

impl vstd::std_specs::convert::FromSpecImpl<u32> for BuildNumber {
    open spec fn obeys_from_spec() -> bool {
        true
    }

    open spec fn from_spec(v: u32) -> BuildNumber {
        BuildNumber(v)
    }
}

impl From<u64> for BuildNumber {
    fn from(v: u64) -> (r: BuildNumber) {
        BuildNumber(#[verifier::truncate] (v as u32))
    }
}

impl vstd::std_specs::convert::FromSpecImpl<u64> for BuildNumber {
    open spec fn obeys_from_spec() -> bool {
        true
    }

    open spec fn from_spec(v: u64) -> BuildNumber {
        BuildNumber(v as u32)
    }
}

impl From<i32> for BuildNumber {
    fn from(v: i32) -> (r: BuildNumber) {
        BuildNumber(#[verifier::truncate] (v as u32))
    }
}

impl vstd::std_specs::convert::FromSpecImpl<i32> for BuildNumber {
    open spec fn obeys_from_spec() -> bool {
        true
    }

    open spec fn from_spec(v: i32) -> BuildNumber {
        BuildNumber(v as u32)
    }
}

impl From<i64> for BuildNumber {
    fn from(v: i64) -> (r: BuildNumber) {
        BuildNumber(#[verifier::truncate] (v as u32))
    }
}

impl vstd::std_specs::convert::FromSpecImpl<i64> for BuildNumber {
    open spec fn obeys_from_spec() -> bool {
        true
    }

    open spec fn from_spec(v: i64) -> BuildNumber {
        BuildNumber(v as u32)
    }
}

impl From<u8> for BuildNumber {
    fn from(v: u8) -> (r: BuildNumber) {
        BuildNumber(#[verifier::truncate] (v as u32))
    }
}

impl vstd::std_specs::convert::FromSpecImpl<u8> for BuildNumber {
    open spec fn obeys_from_spec() -> bool {
        true
    }

    open spec fn from_spec(v: u8) -> BuildNumber {
        BuildNumber(v as u32)
    }
}

impl From<u16> for BuildNumber {
    fn from(v: u16) -> (r: BuildNumber) {
        BuildNumber(#[verifier::truncate] (v as u32))
    }
}

impl vstd::std_specs::convert::FromSpecImpl<u16> for BuildNumber {
    open spec fn obeys_from_spec() -> bool {
        true
    }

    open spec fn from_spec(v: u16) -> BuildNumber {
        BuildNumber(v as u32)
    }
}

impl From<i8> for BuildNumber {
    fn from(v: i8) -> (r: BuildNumber) {
        BuildNumber(#[verifier::truncate] (v as u32))
    }
}

impl vstd::std_specs::convert::FromSpecImpl<i8> for BuildNumber {
    open spec fn obeys_from_spec() -> bool {
        true
    }

    open spec fn from_spec(v: i8) -> BuildNumber {
        BuildNumber(v as u32)
    }
}

impl From<i16> for BuildNumber {
    fn from(v: i16) -> (r: BuildNumber) {
        BuildNumber(#[verifier::truncate] (v as u32))
    }
}

impl vstd::std_specs::convert::FromSpecImpl<i16> for BuildNumber {
    open spec fn obeys_from_spec() -> bool {
        true
    }

    open spec fn from_spec(v: i16) -> BuildNumber {
        BuildNumber(v as u32)
    }
}

/// Which build status a payload string names.
pub open spec fn status_of(s: Seq<char>) -> Option<BuildStatus> {
    if s == "SUCCESS"@ {
        Some(BuildStatus::Success)
    } else if s == "UNSTABLE"@ {
        Some(BuildStatus::Unstable)
    } else if s == "FAILURE"@ {
        Some(BuildStatus::Failure)
    } else if s == "NOT_BUILT"@ {
        Some(BuildStatus::NotBuilt)
    } else if s == "ABORTED"@ {
        Some(BuildStatus::Aborted)
    } else {
        None
    }
}

/// Read a build status from its payload spelling.
pub fn parse_status(s: &str) -> (r: Option<BuildStatus>)
    ensures
        r == status_of(s@),
{
    if str_eq(s, "SUCCESS") {
        Some(BuildStatus::Success)
    } else if str_eq(s, "UNSTABLE") {
        Some(BuildStatus::Unstable)
    } else if str_eq(s, "FAILURE") {
        Some(BuildStatus::Failure)
    } else if str_eq(s, "NOT_BUILT") {
        Some(BuildStatus::NotBuilt)
    } else if str_eq(s, "ABORTED") {
        Some(BuildStatus::Aborted)
    } else {
        None
    }
}

/// The build status bound to key `k`.
pub open spec fn status_field(f: Seq<(String, JsonValue)>, k: Seq<char>) -> Option<BuildStatus> {
    match str_field(f, k) {
        Some(s) => status_of(s@),
        None => None,
    }
}

/// As `str_inv`, for a build-status slot.
pub open spec fn status_inv(
    f: Seq<(String, JsonValue)>,
    k: Seq<char>,
    slot: Option<BuildStatus>,
) -> bool {
    &&& at_most_once(f, k)
    &&& slot == status_field(f, k)
    &&& (has_key(f, k) ==> status_field(f, k) is Some)
}

/// The short build a document stands for: an object binding `url` to a
/// string and `number` to an unsigned 32-bit integer, each once. Other
/// fields are ignored.
pub open spec fn short_build_of(v: JsonValue) -> Option<ShortBuild> {
    match v {
        JsonValue::Obj(entries) => {
            let f = entries@;
            if str_field(f, "url"@) is Some && at_most_once(f, "url"@) && u32_field(f, "number"@)
                is Some && at_most_once(f, "number"@) {
                Some(
                    ShortBuild {
                        url: str_field(f, "url"@)->Some_0,
                        number: u32_field(f, "number"@)->Some_0,
                    },
                )
            } else {
                None
            }
        },
        _ => None,
    }
}

/// Key `k` is a reason a short build reference refuses a document: the
/// document is no object, or a declared field is missing, duplicated or
/// ill-shaped.
pub open spec fn short_build_fault(v: JsonValue, k: Seq<char>) -> bool {
    ||| !(v is Obj)
    ||| (k == "url"@ && !(str_field(v->Obj_0@, k) is Some && at_most_once(v->Obj_0@, k)))
    ||| (k == "number"@ && !(u32_field(v->Obj_0@, k) is Some && at_most_once(v->Obj_0@, k)))
}

/// Decode a short build reference.
#[verifier::loop_isolation(false)]
pub fn decode_short_build(v: JsonValue) -> (r: Result<ShortBuild, DecodeError>)
    ensures
        r is Ok <==> short_build_of(v) is Some,
        r matches Ok(b) ==> Some(b) == short_build_of(v),
        r matches Err(e) ==> (e matches DecodeError::StructuralDecodeError { field }
            && short_build_fault(v, field@)),
{
    let mut fields = match v {
        JsonValue::Obj(entries) => entries,
        _ => {
            return Err(structural("url"));
        },
    };
    proof {
        lemma_key_literals();
    }
    let ghost orig = fields@;
    let ghost mut pre: Seq<(String, JsonValue)> = Seq::empty();
    let mut url_s: Option<String> = None;
    let mut number_s: Option<u32> = None;
    while fields.len() > 0
        invariant
            orig == pre + fields@,
            str_inv(pre, "url"@, url_s),
            u32_inv(pre, "number"@, number_s),
        decreases fields.len(),
    {
        let ghost pref = fields@;
        let kv = fields.remove(0);
        let ghost e = kv;
        let (k, v) = kv;
        proof {
            assert(pre.push(e) + fields@ =~= pre + pref);
            assert(orig.subrange(0, pre.len() as int + 1) =~= pre.push(e));
            lemma_push_keys(pre, e);
            lemma_sub_keys(orig, pre.len() as int + 1);
        }
        if str_eq(k.as_str(), "url") {
            if url_s.is_some() {
                return Err(structural_key(k));
            }
            match v {
                JsonValue::Str(s) => {
                    url_s = Some(s);
                },
                _ => {
                    return Err(structural_key(k));
                },
            }
        } else if str_eq(k.as_str(), "number") {
            if number_s.is_some() {
                return Err(structural_key(k));
            }
            match v {
                JsonValue::Int(n) => {
                    if n < 0 || n > u32::MAX as i64 {
                        return Err(structural_key(k));
                    }
                    number_s = Some(n as u32);
                },
                _ => {
                    return Err(structural_key(k));
                },
            }
        }
        proof {
            pre = pre.push(e);
        }
    }
    proof {
        assert(pre =~= orig);
    }
    let url = match url_s {
        Some(u) => u,
        None => {
            return Err(structural("url"));
        },
    };
    let number = match number_s {
        Some(n) => n,
        None => {
            return Err(structural("number"));
        },
    };
    Ok(ShortBuild { url, number })
}

/// The short builds a list of documents stands for, when every one decodes.
pub open spec fn short_builds_of(items: Seq<JsonValue>) -> Option<Seq<ShortBuild>> {
    if forall|i: int| 0 <= i < items.len() ==> (#[trigger] short_build_of(items[i])) is Some {
        Some(Seq::new(items.len(), |i: int| short_build_of(items[i])->Some_0))
    } else {
        None
    }
}

/// Decode a list of short build references.
#[verifier::loop_isolation(false)]
pub fn decode_short_builds(items: Vec<JsonValue>) -> (r: Result<Vec<ShortBuild>, DecodeError>)
    ensures
        r is Ok <==> short_builds_of(items@) is Some,
        r matches Ok(bs) ==> Some(bs@) == short_builds_of(items@),
        r matches Err(e) ==> e is StructuralDecodeError,
{
    let ghost orig = items@;
    let mut items = items;
    let mut out: Vec<ShortBuild> = Vec::new();
    while items.len() > 0
        invariant
            out.len() + items.len() == orig.len(),
            forall|i: int| 0 <= i < items@.len() ==> items@[i] == orig[out.len() + i],
            forall|i: int|
                0 <= i < out.len() ==> (#[trigger] short_build_of(orig[i])) is Some && out@[i]
                    == short_build_of(orig[i])->Some_0,
        decreases items.len(),
    {
        let ghost n = out.len() as int;
        let v = items.remove(0);
        proof {
            assert(v == orig[n]);
        }
        match decode_short_build(v) {
            Ok(b) => {
                out.push(b);
            },
            Err(e) => {
                return Err(e);
            },
        }
    }
    proof {
        if short_builds_of(orig) is Some {
            assert(out@ =~= short_builds_of(orig)->Some_0);
        }
    }
    Ok(out)
}

/// The artifact a document stands for: an object binding `displayPath`,
/// `fileName` and `relativePath` to strings, each once.
pub open spec fn artifact_of(v: JsonValue) -> Option<Artifact> {
    match v {
        JsonValue::Obj(entries) => {
            let f = entries@;
            if str_field(f, "displayPath"@) is Some && at_most_once(f, "displayPath"@) && str_field(
                f,
                "fileName"@,
            ) is Some && at_most_once(f, "fileName"@) && str_field(f, "relativePath"@) is Some
                && at_most_once(f, "relativePath"@) {
                Some(
                    Artifact {
                        display_path: str_field(f, "displayPath"@)->Some_0,
                        file_name: str_field(f, "fileName"@)->Some_0,
                        relative_path: str_field(f, "relativePath"@)->Some_0,
                    },
                )
            } else {
                None
            }
        },
        _ => None,
    }
}

/// Key `k` is a reason an archived-file descriptor refuses a document: the
/// document is no object, or a declared field is missing, duplicated or
/// ill-shaped.
pub open spec fn artifact_fault(v: JsonValue, k: Seq<char>) -> bool {
    ||| !(v is Obj)
    ||| (k == "displayPath"@ && !(str_field(v->Obj_0@, k) is Some && at_most_once(v->Obj_0@, k)))
    ||| (k == "fileName"@ && !(str_field(v->Obj_0@, k) is Some && at_most_once(v->Obj_0@, k)))
    ||| (k == "relativePath"@ && !(str_field(v->Obj_0@, k) is Some && at_most_once(v->Obj_0@, k)))
}

/// Decode one archived-file descriptor.
#[verifier::loop_isolation(false)]
pub fn decode_artifact(v: JsonValue) -> (r: Result<Artifact, DecodeError>)
    ensures
        r is Ok <==> artifact_of(v) is Some,
        r matches Ok(a) ==> Some(a) == artifact_of(v),
        r matches Err(e) ==> (e matches DecodeError::StructuralDecodeError { field }
            && artifact_fault(v, field@)),
{
    let mut fields = match v {
        JsonValue::Obj(entries) => entries,
        _ => {
            return Err(structural("displayPath"));
        },
    };
    proof {
        lemma_key_literals();
    }
    let ghost orig = fields@;
    let ghost mut pre: Seq<(String, JsonValue)> = Seq::empty();
    let mut display_s: Option<String> = None;
    let mut file_s: Option<String> = None;
    let mut relative_s: Option<String> = None;
    while fields.len() > 0
        invariant
            orig == pre + fields@,
            str_inv(pre, "displayPath"@, display_s),
            str_inv(pre, "fileName"@, file_s),
            str_inv(pre, "relativePath"@, relative_s),
        decreases fields.len(),
    {
        let ghost pref = fields@;
        let kv = fields.remove(0);
        let ghost e = kv;
        let (k, v) = kv;
        proof {
            assert(pre.push(e) + fields@ =~= pre + pref);
            assert(orig.subrange(0, pre.len() as int + 1) =~= pre.push(e));
            lemma_push_keys(pre, e);
            lemma_sub_keys(orig, pre.len() as int + 1);
        }
        if str_eq(k.as_str(), "displayPath") {
            if display_s.is_some() {
                return Err(structural_key(k));
            }
            match v {
                JsonValue::Str(s) => {
                    display_s = Some(s);
                },
                _ => {
                    return Err(structural_key(k));
                },
            }
        } else if str_eq(k.as_str(), "fileName") {
            if file_s.is_some() {
                return Err(structural_key(k));
            }
            match v {
                JsonValue::Str(s) => {
                    file_s = Some(s);
                },
                _ => {
                    return Err(structural_key(k));
                },
            }
        } else if str_eq(k.as_str(), "relativePath") {
            if relative_s.is_some() {
                return Err(structural_key(k));
            }
            match v {
                JsonValue::Str(s) => {
                    relative_s = Some(s);
                },
                _ => {
                    return Err(structural_key(k));
                },
            }
        }
        proof {
            pre = pre.push(e);
        }
    }
    proof {
        assert(pre =~= orig);
    }
    let display_path = match display_s {
        Some(s) => s,
        None => {
            return Err(structural("displayPath"));
        },
    };
    let file_name = match file_s {
        Some(s) => s,
        None => {
            return Err(structural("fileName"));
        },
    };
    let relative_path = match relative_s {
        Some(s) => s,
        None => {
            return Err(structural("relativePath"));
        },
    };
    Ok(Artifact { display_path, file_name, relative_path })
}

/// The artifacts a list of documents stands for, when every one decodes.
pub open spec fn artifacts_of(items: Seq<JsonValue>) -> Option<Seq<Artifact>> {
    if forall|i: int| 0 <= i < items.len() ==> (#[trigger] artifact_of(items[i])) is Some {
        Some(Seq::new(items.len(), |i: int| artifact_of(items[i])->Some_0))
    } else {
        None
    }
}

/// Decode a list of archived-file descriptors.
#[verifier::loop_isolation(false)]
pub fn decode_artifacts(items: Vec<JsonValue>) -> (r: Result<Vec<Artifact>, DecodeError>)
    ensures
        r is Ok <==> artifacts_of(items@) is Some,
        r matches Ok(xs) ==> Some(xs@) == artifacts_of(items@),
        r matches Err(e) ==> e is StructuralDecodeError,
{
    let ghost orig = items@;
    let mut items = items;
    let mut out: Vec<Artifact> = Vec::new();
    while items.len() > 0
        invariant
            out.len() + items.len() == orig.len(),
            forall|i: int| 0 <= i < items@.len() ==> items@[i] == orig[out.len() + i],
            forall|i: int|
                0 <= i < out.len() ==> (#[trigger] artifact_of(orig[i])) is Some && out@[i]
                    == artifact_of(orig[i])->Some_0,
        decreases items.len(),
    {
        let ghost n = out.len() as int;
        let v = items.remove(0);
        proof {
            assert(v == orig[n]);
        }
        match decode_artifact(v) {
            Ok(a) => {
                out.push(a);
            },
            Err(e) => {
                return Err(e);
            },
        }
    }
    proof {
        if artifacts_of(orig) is Some {
            assert(out@ =~= artifacts_of(orig)->Some_0);
        }
    }
    Ok(out)
}

/// Pins the view of every build-status spelling, so that re-encoding can
/// tell them apart.
pub proof fn lemma_status_literals()
    ensures
        "SUCCESS"@ == seq!['S', 'U', 'C', 'C', 'E', 'S', 'S'],
        "UNSTABLE"@ == seq!['U', 'N', 'S', 'T', 'A', 'B', 'L', 'E'],
        "FAILURE"@ == seq!['F', 'A', 'I', 'L', 'U', 'R', 'E'],
        "NOT_BUILT"@ == seq!['N', 'O', 'T', '_', 'B', 'U', 'I', 'L', 'T'],
        "ABORTED"@ == seq!['A', 'B', 'O', 'R', 'T', 'E', 'D'],
{
    reveal_strlit("SUCCESS");
    reveal_strlit("UNSTABLE");
    reveal_strlit("FAILURE");
    reveal_strlit("NOT_BUILT");
    reveal_strlit("ABORTED");
    assert("SUCCESS"@ =~= seq!['S', 'U', 'C', 'C', 'E', 'S', 'S']);
    assert("UNSTABLE"@ =~= seq!['U', 'N', 'S', 'T', 'A', 'B', 'L', 'E']);
    assert("FAILURE"@ =~= seq!['F', 'A', 'I', 'L', 'U', 'R', 'E']);
    assert("NOT_BUILT"@ =~= seq!['N', 'O', 'T', '_', 'B', 'U', 'I', 'L', 'T']);
    assert("ABORTED"@ =~= seq!['A', 'B', 'O', 'R', 'T', 'E', 'D']);
}

/// The payload spelling of a build status.
pub fn status_name(s: BuildStatus) -> (r: &'static str)
    ensures
        status_of(r@) == Some(s),
{
    proof {
        lemma_status_literals();
    }
    match s {
        BuildStatus::Success => "SUCCESS",
        BuildStatus::Unstable => "UNSTABLE",
        BuildStatus::Failure => "FAILURE",
        BuildStatus::NotBuilt => "NOT_BUILT",
        BuildStatus::Aborted => "ABORTED",
    }
}

/// Re-encode one archived-file descriptor as the canonical three-field
/// object it decodes from.
pub fn encode_artifact(a: Artifact) -> (r: JsonValue)
    ensures
        artifact_of(r) == Some(a),
{
    proof {
        lemma_key_literals();
    }
    let mut entries: Vec<(String, JsonValue)> = Vec::new();
    entries.push(("displayPath".to_owned(), JsonValue::Str(a.display_path)));
    entries.push(("fileName".to_owned(), JsonValue::Str(a.file_name)));
    entries.push(("relativePath".to_owned(), JsonValue::Str(a.relative_path)));
    proof {
        assert(crate::value::key_at(entries@, "displayPath"@, 0));
        assert(crate::value::key_at(entries@, "fileName"@, 1));
        assert(crate::value::key_at(entries@, "relativePath"@, 2));
    }
    JsonValue::Obj(entries)
}

/// Re-encode a list of archived-file descriptors.
#[verifier::loop_isolation(false)]
pub fn encode_artifacts(xs: Vec<Artifact>) -> (r: Vec<JsonValue>)
    ensures
        artifacts_of(r@) == Some(xs@),
{
    let ghost orig = xs@;
    let mut xs = xs;
    let mut out: Vec<JsonValue> = Vec::new();
    while xs.len() > 0
        invariant
            out.len() + xs.len() == orig.len(),
            forall|i: int| 0 <= i < xs@.len() ==> xs@[i] == orig[out.len() + i],
            forall|i: int| 0 <= i < out.len() ==> artifact_of(#[trigger] out@[i]) == Some(orig[i]),
        decreases xs.len(),
    {
        let ghost n = out.len() as int;
        let a = xs.remove(0);
        proof {
            assert(a == orig[n]);
        }
        let e = encode_artifact(a);
        out.push(e);
    }
    proof {
        assert(artifacts_of(out@)->Some_0 =~= orig);
    }
    out
}

} // verus!
