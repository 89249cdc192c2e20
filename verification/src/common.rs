//! The common build fields shared by every shape of both decoding
//! strategies, and the single pass that reads them out of a document.
use vstd::prelude::*;

use crate::builds::{
    artifacts_of, decode_artifacts, parse_status, status_field, status_inv, Artifact, BuildStatus,
};
use crate::error::{structural, structural_key, DecodeError};
use crate::value::{
    arr_field, arr_inv, at_most_once, bool_field, bool_inv, has_key, i32_field, i32_inv,
    lemma_key_literals, lemma_push_keys, lemma_sub_keys, opt_str_field, opt_str_inv, str_eq,
    str_field, str_inv, u32_field, u32_inv, u64_field, u64_inv, JsonValue,
};

verus! {

/// The fields common to every build shape.
#[derive(Debug, PartialEq)]
pub struct BuildCommon {
    /// URL for the build
    pub url: String,
    /// Build number for this job
    pub number: u32,
    /// Duration
    pub duration: u32,
    /// Estimated duration
    pub estimated_duration: u32,
    /// Timestamp of the build start
    pub timestamp: u64,
    /// Are the logs kept?
    pub keep_log: bool,
    /// Build result
    pub result: BuildStatus,
    /// Display name, usually "#" followed by the build number
    pub display_name: String,
    /// Full display name: job name followed by the build display name
    pub full_display_name: String,
    /// Build description
    pub description: Option<String>,
    /// Is this build currently running
    pub building: bool,
    /// Build number in string format
    pub id: String,
    /// ID while in the build queue
    pub queue_id: i32,
    /// Build actions, kept as raw documents
    pub actions: Vec<JsonValue>,
    /// Artifacts saved and archived by this build
    pub artifacts: Vec<Artifact>,
}

/// The mathematical image of `BuildCommon`.
#[verifier::ext_equal]
pub ghost struct BuildCommonV {
    pub url: String,
    pub number: u32,
    pub duration: u32,
    pub estimated_duration: u32,
    pub timestamp: u64,
    pub keep_log: bool,
    pub result: BuildStatus,
    pub display_name: String,
    pub full_display_name: String,
    pub description: Option<String>,
    pub building: bool,
    pub id: String,
    pub queue_id: i32,
    pub actions: Seq<JsonValue>,
    pub artifacts: Seq<Artifact>,
}

impl View for BuildCommon {
    type V = BuildCommonV;

    open spec fn view(&self) -> BuildCommonV {
        BuildCommonV {
            url: self.url,
            number: self.number,
            duration: self.duration,
            estimated_duration: self.estimated_duration,
            timestamp: self.timestamp,
            keep_log: self.keep_log,
            result: self.result,
            display_name: self.display_name,
            full_display_name: self.full_display_name,
            description: self.description,
            building: self.building,
            id: self.id,
            queue_id: self.queue_id,
            actions: self.actions@,
            artifacts: self.artifacts@,
        }
    }
}

/// The artifacts array bound to `artifacts`, decoded descriptor by
/// descriptor.
pub open spec fn artifacts_field(f: Seq<(String, JsonValue)>) -> Option<Seq<Artifact>> {
    match arr_field(f, "artifacts"@) {
        Some(a) => artifacts_of(a@),
        None => None,
    }
}

/// As the other slot invariants, for the decoded artifacts slot.
pub open spec fn artifacts_inv(
    f: Seq<(String, JsonValue)>,
    k: Seq<char>,
    slot: Option<Vec<Artifact>>,
) -> bool {
    &&& at_most_once(f, k)
    &&& (!has_key(f, k) ==> slot is None)
    &&& (has_key(f, k) ==> arr_field(f, k) is Some && artifacts_of(arr_field(f, k)->Some_0@)
        is Some && (slot matches Some(av) && av@ == artifacts_of(arr_field(f, k)->Some_0@)->Some_0))
}

/// Whether `k` is one of the declared common field names.
pub open spec fn is_common_key(k: Seq<char>) -> bool {
    ||| k == "url"@
    ||| k == "number"@
    ||| k == "duration"@
    ||| k == "estimatedDuration"@
    ||| k == "timestamp"@
    ||| k == "keepLog"@
    ||| k == "result"@
    ||| k == "displayName"@
    ||| k == "fullDisplayName"@
    ||| k == "description"@
    ||| k == "building"@
    ||| k == "id"@
    ||| k == "queueId"@
    ||| k == "actions"@
    ||| k == "artifacts"@
}

/// The entries whose keys the common record does not declare, in source
/// order: what the open strategy keeps in its overflow container.
pub open spec fn undeclared_of(f: Seq<(String, JsonValue)>) -> Seq<(String, JsonValue)> {
    f.filter(|kv: (String, JsonValue)| !is_common_key(kv.0@))
}

/// How appending one entry changes the undeclared remainder.
pub proof fn lemma_undeclared_push(f: Seq<(String, JsonValue)>, e: (String, JsonValue))
    ensures
        undeclared_of(f.push(e)) == if is_common_key(e.0@) {
            undeclared_of(f)
        } else {
            undeclared_of(f).push(e)
        },
{
    reveal(Seq::filter);
    assert(f.push(e).drop_last() == f) by {
        assert(f.push(e).drop_last() =~= f);
    }
    assert(f.push(e).last() == e);
}

/// The document binds every declared common field exactly once, with the
/// declared shape; `description` may also be absent or null.
pub open spec fn common_ok(f: Seq<(String, JsonValue)>) -> bool {
    &&& str_field(f, "url"@) is Some && at_most_once(f, "url"@)
    &&& u32_field(f, "number"@) is Some && at_most_once(f, "number"@)
    &&& u32_field(f, "duration"@) is Some && at_most_once(f, "duration"@)
    &&& u32_field(f, "estimatedDuration"@) is Some && at_most_once(f, "estimatedDuration"@)
    &&& u64_field(f, "timestamp"@) is Some && at_most_once(f, "timestamp"@)
    &&& bool_field(f, "keepLog"@) is Some && at_most_once(f, "keepLog"@)
    &&& status_field(f, "result"@) is Some && at_most_once(f, "result"@)
    &&& str_field(f, "displayName"@) is Some && at_most_once(f, "displayName"@)
    &&& str_field(f, "fullDisplayName"@) is Some && at_most_once(f, "fullDisplayName"@)
    &&& opt_str_field(f, "description"@) is Some && at_most_once(f, "description"@)
    &&& bool_field(f, "building"@) is Some && at_most_once(f, "building"@)
    &&& str_field(f, "id"@) is Some && at_most_once(f, "id"@)
    &&& i32_field(f, "queueId"@) is Some && at_most_once(f, "queueId"@)
    &&& arr_field(f, "actions"@) is Some && at_most_once(f, "actions"@)
    &&& artifacts_field(f) is Some && at_most_once(f, "artifacts"@)
}

/// What the common fields of the document are, when `common_ok` holds.
pub open spec fn spec_common(f: Seq<(String, JsonValue)>) -> BuildCommonV {
    BuildCommonV {
        url: str_field(f, "url"@)->Some_0,
        number: u32_field(f, "number"@)->Some_0,
        duration: u32_field(f, "duration"@)->Some_0,
        estimated_duration: u32_field(f, "estimatedDuration"@)->Some_0,
        timestamp: u64_field(f, "timestamp"@)->Some_0,
        keep_log: bool_field(f, "keepLog"@)->Some_0,
        result: status_field(f, "result"@)->Some_0,
        display_name: str_field(f, "displayName"@)->Some_0,
        full_display_name: str_field(f, "fullDisplayName"@)->Some_0,
        description: opt_str_field(f, "description"@)->Some_0,
        building: bool_field(f, "building"@)->Some_0,
        id: str_field(f, "id"@)->Some_0,
        queue_id: i32_field(f, "queueId"@)->Some_0,
        actions: arr_field(f, "actions"@)->Some_0@,
        artifacts: artifacts_field(f)->Some_0,
    }
}

/// One optional slot per declared common field, as the single pass fills
/// them: a slot is empty exactly when its key is absent.
#[derive(Debug)]
pub struct CommonSlots {
    pub url: Option<String>,
    pub number: Option<u32>,
    pub duration: Option<u32>,
    pub estimated_duration: Option<u32>,
    pub timestamp: Option<u64>,
    pub keep_log: Option<bool>,
    pub result: Option<BuildStatus>,
    pub display_name: Option<String>,
    pub full_display_name: Option<String>,
    pub description: Option<Option<String>>,
    pub building: Option<bool>,
    pub id: Option<String>,
    pub queue_id: Option<i32>,
    pub actions: Option<Vec<JsonValue>>,
    pub artifacts: Option<Vec<Artifact>>,
}

/// Every declared common field that is present is bound once with its
/// declared shape; an absent field raises no fault here.
pub open spec fn common_scan_ok(f: Seq<(String, JsonValue)>) -> bool {
    &&& at_most_once(f, "url"@) && (has_key(f, "url"@) ==> str_field(f, "url"@) is Some)
    &&& at_most_once(f, "number"@) && (has_key(f, "number"@) ==> u32_field(f, "number"@) is Some)
    &&& at_most_once(f, "duration"@) && (has_key(f, "duration"@) ==> u32_field(f, "duration"@) is Some)
    &&& at_most_once(f, "estimatedDuration"@) && (has_key(f, "estimatedDuration"@) ==> u32_field(f, "estimatedDuration"@) is Some)
    &&& at_most_once(f, "timestamp"@) && (has_key(f, "timestamp"@) ==> u64_field(f, "timestamp"@) is Some)
    &&& at_most_once(f, "keepLog"@) && (has_key(f, "keepLog"@) ==> bool_field(f, "keepLog"@) is Some)
    &&& at_most_once(f, "result"@) && (has_key(f, "result"@) ==> status_field(f, "result"@) is Some)
    &&& at_most_once(f, "displayName"@) && (has_key(f, "displayName"@) ==> str_field(f, "displayName"@) is Some)
    &&& at_most_once(f, "fullDisplayName"@) && (has_key(f, "fullDisplayName"@) ==> str_field(f, "fullDisplayName"@) is Some)
    &&& at_most_once(f, "description"@) && opt_str_field(f, "description"@) is Some
    &&& at_most_once(f, "building"@) && (has_key(f, "building"@) ==> bool_field(f, "building"@) is Some)
    &&& at_most_once(f, "id"@) && (has_key(f, "id"@) ==> str_field(f, "id"@) is Some)
    &&& at_most_once(f, "queueId"@) && (has_key(f, "queueId"@) ==> i32_field(f, "queueId"@) is Some)
    &&& at_most_once(f, "actions"@) && (has_key(f, "actions"@) ==> arr_field(f, "actions"@) is Some)
    &&& at_most_once(f, "artifacts"@) && (has_key(f, "artifacts"@) ==> artifacts_field(f) is Some)
}

/// Key `k` is a reason the common pass refuses the document: it names a
/// declared field that is bound twice or bound to the wrong shape.
pub open spec fn common_scan_fault(f: Seq<(String, JsonValue)>, k: Seq<char>) -> bool {
    ||| (k == "url"@ && !(at_most_once(f, k) && (has_key(f, k) ==> str_field(f, k) is Some)))
    ||| (k == "number"@ && !(at_most_once(f, k) && (has_key(f, k) ==> u32_field(f, k) is Some)))
    ||| (k == "duration"@ && !(at_most_once(f, k) && (has_key(f, k) ==> u32_field(f, k) is Some)))
    ||| (k == "estimatedDuration"@ && !(at_most_once(f, k) && (has_key(f, k) ==> u32_field(f, k) is Some)))
    ||| (k == "timestamp"@ && !(at_most_once(f, k) && (has_key(f, k) ==> u64_field(f, k) is Some)))
    ||| (k == "keepLog"@ && !(at_most_once(f, k) && (has_key(f, k) ==> bool_field(f, k) is Some)))
    ||| (k == "result"@ && !(at_most_once(f, k) && (has_key(f, k) ==> status_field(f, k) is Some)))
    ||| (k == "displayName"@ && !(at_most_once(f, k) && (has_key(f, k) ==> str_field(f, k) is Some)))
    ||| (k == "fullDisplayName"@ && !(at_most_once(f, k) && (has_key(f, k) ==> str_field(f, k) is Some)))
    ||| (k == "description"@ && !(at_most_once(f, k) && opt_str_field(f, k) is Some))
    ||| (k == "building"@ && !(at_most_once(f, k) && (has_key(f, k) ==> bool_field(f, k) is Some)))
    ||| (k == "id"@ && !(at_most_once(f, k) && (has_key(f, k) ==> str_field(f, k) is Some)))
    ||| (k == "queueId"@ && !(at_most_once(f, k) && (has_key(f, k) ==> i32_field(f, k) is Some)))
    ||| (k == "actions"@ && !(at_most_once(f, k) && (has_key(f, k) ==> arr_field(f, k) is Some)))
    ||| (k == "artifacts"@ && !(at_most_once(f, k) && (has_key(f, k) ==> artifacts_field(f) is Some)))
}

/// Key `k` is a reason the strict extraction refuses the document: it
/// names a declared field that is missing, bound twice, or ill-shaped.
pub open spec fn common_fault(f: Seq<(String, JsonValue)>, k: Seq<char>) -> bool {
    ||| (k == "url"@ && !(at_most_once(f, k) && str_field(f, k) is Some))
    ||| (k == "number"@ && !(at_most_once(f, k) && u32_field(f, k) is Some))
    ||| (k == "duration"@ && !(at_most_once(f, k) && u32_field(f, k) is Some))
    ||| (k == "estimatedDuration"@ && !(at_most_once(f, k) && u32_field(f, k) is Some))
    ||| (k == "timestamp"@ && !(at_most_once(f, k) && u64_field(f, k) is Some))
    ||| (k == "keepLog"@ && !(at_most_once(f, k) && bool_field(f, k) is Some))
    ||| (k == "result"@ && !(at_most_once(f, k) && status_field(f, k) is Some))
    ||| (k == "displayName"@ && !(at_most_once(f, k) && str_field(f, k) is Some))
    ||| (k == "fullDisplayName"@ && !(at_most_once(f, k) && str_field(f, k) is Some))
    ||| (k == "description"@ && !(at_most_once(f, k) && opt_str_field(f, k) is Some))
    ||| (k == "building"@ && !(at_most_once(f, k) && bool_field(f, k) is Some))
    ||| (k == "id"@ && !(at_most_once(f, k) && str_field(f, k) is Some))
    ||| (k == "queueId"@ && !(at_most_once(f, k) && i32_field(f, k) is Some))
    ||| (k == "actions"@ && !(at_most_once(f, k) && arr_field(f, k) is Some))
    ||| (k == "artifacts"@ && !(at_most_once(f, k) && artifacts_field(f) is Some))
}

/// One pass over the entries of a document: fill each declared common
/// field's slot from its key, refuse a duplicate or ill-shaped binding —
/// but not an absent one — and hand back the undeclared remainder in
/// source order.
#[verifier::loop_isolation(false)]
#[verifier::rlimit(60)]
pub(crate) fn scan_common(fields: Vec<(String, JsonValue)>) -> (r: Result<
    (CommonSlots, Vec<(String, JsonValue)>),
    DecodeError,
>)
    ensures
        r is Ok <==> common_scan_ok(fields@),
        r matches Ok(p) ==> {
        &&& str_inv(fields@, "url"@, p.0.url)
        &&& u32_inv(fields@, "number"@, p.0.number)
        &&& u32_inv(fields@, "duration"@, p.0.duration)
        &&& u32_inv(fields@, "estimatedDuration"@, p.0.estimated_duration)
        &&& u64_inv(fields@, "timestamp"@, p.0.timestamp)
        &&& bool_inv(fields@, "keepLog"@, p.0.keep_log)
        &&& status_inv(fields@, "result"@, p.0.result)
        &&& str_inv(fields@, "displayName"@, p.0.display_name)
        &&& str_inv(fields@, "fullDisplayName"@, p.0.full_display_name)
        &&& opt_str_inv(fields@, "description"@, p.0.description)
        &&& bool_inv(fields@, "building"@, p.0.building)
        &&& str_inv(fields@, "id"@, p.0.id)
        &&& i32_inv(fields@, "queueId"@, p.0.queue_id)
        &&& arr_inv(fields@, "actions"@, p.0.actions)
        &&& artifacts_inv(fields@, "artifacts"@, p.0.artifacts)
            &&& p.1@ == undeclared_of(fields@)
            &&& (forall|i: int| 0 <= i < p.1@.len() ==> !is_common_key(#[trigger] p.1@[i].0@))
        },
        r matches Err(e) ==> (e matches DecodeError::StructuralDecodeError { field }
            && common_scan_fault(fields@, field@)),
{
    proof {
        lemma_key_literals();
    }
    let ghost orig = fields@;
    let mut fields = fields;
    let ghost mut pre: Seq<(String, JsonValue)> = Seq::empty();
    let mut rest: Vec<(String, JsonValue)> = Vec::new();
    let mut url_s: Option<String> = None;
    let mut number_s: Option<u32> = None;
    let mut duration_s: Option<u32> = None;
    let mut estimated_s: Option<u32> = None;
    let mut timestamp_s: Option<u64> = None;
    let mut keep_log_s: Option<bool> = None;
    let mut result_s: Option<BuildStatus> = None;
    let mut display_s: Option<String> = None;
    let mut full_display_s: Option<String> = None;
    let mut description_s: Option<Option<String>> = None;
    let mut building_s: Option<bool> = None;
    let mut id_s: Option<String> = None;
    let mut queue_id_s: Option<i32> = None;
    let mut actions_s: Option<Vec<JsonValue>> = None;
    let mut artifacts_s: Option<Vec<Artifact>> = None;
    while fields.len() > 0
        invariant
            orig == pre + fields@,
            str_inv(pre, "url"@, url_s),
            u32_inv(pre, "number"@, number_s),
            u32_inv(pre, "duration"@, duration_s),
            u32_inv(pre, "estimatedDuration"@, estimated_s),
            u64_inv(pre, "timestamp"@, timestamp_s),
            bool_inv(pre, "keepLog"@, keep_log_s),
            status_inv(pre, "result"@, result_s),
            str_inv(pre, "displayName"@, display_s),
            str_inv(pre, "fullDisplayName"@, full_display_s),
            opt_str_inv(pre, "description"@, description_s),
            bool_inv(pre, "building"@, building_s),
            str_inv(pre, "id"@, id_s),
            i32_inv(pre, "queueId"@, queue_id_s),
            arr_inv(pre, "actions"@, actions_s),
            artifacts_inv(pre, "artifacts"@, artifacts_s),
            rest@ == undeclared_of(pre),
            forall|i: int| 0 <= i < rest@.len() ==> !is_common_key(#[trigger] rest@[i].0@),
        decreases fields.len(),
    {
        let ghost pref = fields@;
        let kv = fields.remove(0);
        let ghost e = kv;
        let (k, v) = kv;
        proof {
            assert(pre.push(e) + fields@ =~= pre + pref);
            assert(orig.subrange(0, pre.len() as int + 1) =~= pre.push(e));
            lemma_push_keys(pre, e);
            lemma_sub_keys(orig, pre.len() as int + 1);
            lemma_undeclared_push(pre, e);
        }
        if str_eq(k.as_str(), "url") {
            if url_s.is_some() {
                return Err(structural_key(k));
            }
            match v {
                JsonValue::Str(s) => {
                    url_s = Some(s);
                },
                _ => {
                    return Err(structural_key(k));
                },
            }
        } else if str_eq(k.as_str(), "number") {
            if number_s.is_some() {
                return Err(structural_key(k));
            }
            match v {
                JsonValue::Int(n) => {
                    if n < 0 || n > u32::MAX as i64 {
                        return Err(structural_key(k));
                    }
                    number_s = Some(n as u32);
                },
                _ => {
                    return Err(structural_key(k));
                },
            }
        } else if str_eq(k.as_str(), "duration") {
            if duration_s.is_some() {
                return Err(structural_key(k));
            }
            match v {
                JsonValue::Int(n) => {
                    if n < 0 || n > u32::MAX as i64 {
                        return Err(structural_key(k));
                    }
                    duration_s = Some(n as u32);
                },
                _ => {
                    return Err(structural_key(k));
                },
            }
        } else if str_eq(k.as_str(), "estimatedDuration") {
            if estimated_s.is_some() {
                return Err(structural_key(k));
            }
            match v {
                JsonValue::Int(n) => {
                    if n < 0 || n > u32::MAX as i64 {
                        return Err(structural_key(k));
                    }
                    estimated_s = Some(n as u32);
                },
                _ => {
                    return Err(structural_key(k));
                },
            }
        } else if str_eq(k.as_str(), "timestamp") {
            if timestamp_s.is_some() {
                return Err(structural_key(k));
            }
            match v {
                JsonValue::Int(n) => {
                    if n < 0 {
                        return Err(structural_key(k));
                    }
                    timestamp_s = Some(n as u64);
                },
                _ => {
                    return Err(structural_key(k));
                },
            }
        } else if str_eq(k.as_str(), "keepLog") {
            if keep_log_s.is_some() {
                return Err(structural_key(k));
            }
            match v {
                JsonValue::Bool(b) => {
                    keep_log_s = Some(b);
                },
                _ => {
                    return Err(structural_key(k));
                },
            }
        } else if str_eq(k.as_str(), "result") {
            if result_s.is_some() {
                return Err(structural_key(k));
            }
            match v {
                JsonValue::Str(s) => {
                    match parse_status(s.as_str()) {
                        Some(st) => {
                            result_s = Some(st);
                        },
                        None => {
                            return Err(structural_key(k));
                        },
                    }
                },
                _ => {
                    return Err(structural_key(k));
                },
            }
        } else if str_eq(k.as_str(), "displayName") {
            if display_s.is_some() {
                return Err(structural_key(k));
            }
            match v {
                JsonValue::Str(s) => {
                    display_s = Some(s);
                },
                _ => {
                    return Err(structural_key(k));
                },
            }
        } else if str_eq(k.as_str(), "fullDisplayName") {
            if full_display_s.is_some() {
                return Err(structural_key(k));
            }
            match v {
                JsonValue::Str(s) => {
                    full_display_s = Some(s);
                },
                _ => {
                    return Err(structural_key(k));
                },
            }
        } else if str_eq(k.as_str(), "description") {
            if description_s.is_some() {
                return Err(structural_key(k));
            }
            match v {
                JsonValue::Str(s) => {
                    description_s = Some(Some(s));
                },
                JsonValue::Null => {
                    description_s = Some(None);
                },
                _ => {
                    return Err(structural_key(k));
                },
            }
        } else if str_eq(k.as_str(), "building") {
            if building_s.is_some() {
                return Err(structural_key(k));
            }
            match v {
                JsonValue::Bool(b) => {
                    building_s = Some(b);
                },
                _ => {
                    return Err(structural_key(k));
                },
            }
        } else if str_eq(k.as_str(), "id") {
            if id_s.is_some() {
                return Err(structural_key(k));
            }
            match v {
                JsonValue::Str(s) => {
                    id_s = Some(s);
                },
                _ => {
                    return Err(structural_key(k));
                },
            }
        } else if str_eq(k.as_str(), "queueId") {
            if queue_id_s.is_some() {
                return Err(structural_key(k));
            }
            match v {
                JsonValue::Int(n) => {
                    if n < i32::MIN as i64 || n > i32::MAX as i64 {
                        return Err(structural_key(k));
                    }
                    queue_id_s = Some(n as i32);
                },
                _ => {
                    return Err(structural_key(k));
                },
            }
        } else if str_eq(k.as_str(), "actions") {
            if actions_s.is_some() {
                return Err(structural_key(k));
            }
            match v {
                JsonValue::Arr(a) => {
                    actions_s = Some(a);
                },
                _ => {
                    return Err(structural_key(k));
                },
            }
        } else if str_eq(k.as_str(), "artifacts") {
            if artifacts_s.is_some() {
                return Err(structural_key(k));
            }
            match v {
                JsonValue::Arr(a) => {
                    match decode_artifacts(a) {
                        Ok(av) => {
                            artifacts_s = Some(av);
                        },
                        Err(_) => {
                            return Err(structural_key(k));
                        },
                    }
                },
                _ => {
                    return Err(structural_key(k));
                },
            }
        } else {
            rest.push((k, v));
        }
        proof {
            pre = pre.push(e);
        }
    }
    proof {
        assert(pre =~= orig);
    }
    let slots = CommonSlots {
        url: url_s,
        number: number_s,
        duration: duration_s,
        estimated_duration: estimated_s,
        timestamp: timestamp_s,
        keep_log: keep_log_s,
        result: result_s,
        display_name: display_s,
        full_display_name: full_display_s,
        description: description_s,
        building: building_s,
        id: id_s,
        queue_id: queue_id_s,
        actions: actions_s,
        artifacts: artifacts_s,
    };
    Ok((slots, rest))
}

/// The strict common extraction both closed shapes build on: every declared
/// common field present (description may be absent or null), bound once,
/// with the declared shape; the undeclared remainder comes back in source
/// order. An error names a field that is missing, duplicated or ill-shaped.
pub fn extract_common(fields: Vec<(String, JsonValue)>) -> (r: Result<
    (BuildCommon, Vec<(String, JsonValue)>),
    DecodeError,
>)
    ensures
        r is Ok <==> common_ok(fields@),
        r matches Ok(p) ==> p.0@ == spec_common(fields@) && p.1@ == undeclared_of(fields@),
        r matches Ok(p) ==> forall|i: int|
            0 <= i < p.1@.len() ==> !is_common_key(#[trigger] p.1@[i].0@),
        r matches Err(e) ==> (e matches DecodeError::StructuralDecodeError { field }
            && common_fault(fields@, field@)),
{
    let (slots, rest) = match scan_common(fields) {
        Ok(p) => p,
        Err(e) => {
            return Err(e);
        },
    };
    let url = match slots.url {
        Some(x) => x,
        None => {
            return Err(structural("url"));
        },
    };
    let number = match slots.number {
        Some(x) => x,
        None => {
            return Err(structural("number"));
        },
    };
    let duration = match slots.duration {
        Some(x) => x,
        None => {
            return Err(structural("duration"));
        },
    };
    let estimated_duration = match slots.estimated_duration {
        Some(x) => x,
        None => {
            return Err(structural("estimatedDuration"));
        },
    };
    let timestamp = match slots.timestamp {
        Some(x) => x,
        None => {
            return Err(structural("timestamp"));
        },
    };
    let keep_log = match slots.keep_log {
        Some(x) => x,
        None => {
            return Err(structural("keepLog"));
        },
    };
    let result = match slots.result {
        Some(x) => x,
        None => {
            return Err(structural("result"));
        },
    };
    let display_name = match slots.display_name {
        Some(x) => x,
        None => {
            return Err(structural("displayName"));
        },
    };
    let full_display_name = match slots.full_display_name {
        Some(x) => x,
        None => {
            return Err(structural("fullDisplayName"));
        },
    };
    let description = match slots.description {
        Some(x) => x,
        None => None,
    };
    let building = match slots.building {
        Some(x) => x,
        None => {
            return Err(structural("building"));
        },
    };
    let id = match slots.id {
        Some(x) => x,
        None => {
            return Err(structural("id"));
        },
    };
    let queue_id = match slots.queue_id {
        Some(x) => x,
        None => {
            return Err(structural("queueId"));
        },
    };
    let actions = match slots.actions {
        Some(x) => x,
        None => {
            return Err(structural("actions"));
        },
    };
    let artifacts = match slots.artifacts {
        Some(x) => x,
        None => {
            return Err(structural("artifacts"));
        },
    };
    let common = BuildCommon {
        url,
        number,
        duration,
        estimated_duration,
        timestamp,
        keep_log,
        result,
        display_name,
        full_display_name,
        description,
        building,
        id,
        queue_id,
        actions,
        artifacts,
    };
    Ok((common, rest))
}

} // verus!
