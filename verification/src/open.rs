//! The open common-record strategy: one concrete record holding every
//! common field, the optional discriminant, and an overflow container that
//! absorbs — in source order — every field the record does not declare.
use vstd::prelude::*;

use crate::builds::{
    artifacts_of, encode_artifacts, status_field, status_name, status_of, Artifact, BuildStatus,
};
use crate::common::{
    artifacts_field, common_ok, common_scan_fault, common_scan_ok, is_common_key,
    lemma_undeclared_push, scan_common, undeclared_of, BuildCommon, BuildCommonV,
};
use crate::error::{structural, structural_key, DecodeError};
use crate::value::{
    arr_field, at_most_once, bool_field, has_key, i32_field, key_set, key_value,
    lemma_key_literals, lemma_push_keys, lemma_sub_keys, opt_str_field, opt_str_inv, str_eq,
    str_field, u32_field, u64_field, JsonValue,
};

verus! {

/// The one concrete record of the open strategy: every common field, the
/// discriminant when the payload carried one, and the overflow container
/// holding every undeclared field verbatim.
#[derive(Debug, PartialEq)]
pub struct CommonBuild {
    /// The fields every build shape shares
    pub common: BuildCommon,
    /// The `_class` discriminant provided by the payload, if any
    pub class: Option<String>,
    /// Every field the record does not declare, in source order
    pub overflow: Vec<(String, JsonValue)>,
}

/// The mathematical image of `CommonBuild`.
#[verifier::ext_equal]
pub ghost struct CommonBuildV {
    pub common: BuildCommonV,
    pub class: Option<String>,
    pub overflow: Seq<(String, JsonValue)>,
}

impl View for CommonBuild {
    type V = CommonBuildV;

    open spec fn view(&self) -> CommonBuildV {
        CommonBuildV { common: self.common@, class: self.class, overflow: self.overflow@ }
    }
}

/// Whether `k` is a key the open record declares: a common field name or
/// the discriminant key.
pub open spec fn is_open_key(k: Seq<char>) -> bool {
    is_common_key(k) || k == "_class"@
}

/// The entries of `f` whose key is not the discriminant key.
pub open spec fn class_removed(f: Seq<(String, JsonValue)>) -> Seq<(String, JsonValue)> {
    f.filter(|kv: (String, JsonValue)| kv.0@ != "_class"@)
}

/// How appending one entry changes the class-removed remainder.
pub proof fn lemma_class_removed_push(f: Seq<(String, JsonValue)>, e: (String, JsonValue))
    ensures
        class_removed(f.push(e)) == if e.0@ == "_class"@ {
            class_removed(f)
        } else {
            class_removed(f).push(e)
        },
{
    reveal(Seq::filter);
    assert(f.push(e).drop_last() == f) by {
        assert(f.push(e).drop_last() =~= f);
    }
    assert(f.push(e).last() == e);
}

/// The overflow container a document yields: its entries with every
/// declared key — common fields and discriminant — taken out, in order.
pub open spec fn overflow_of(f: Seq<(String, JsonValue)>) -> Seq<(String, JsonValue)> {
    class_removed(undeclared_of(f))
}

/// The record is well formed: its overflow container holds no key the
/// record itself declares.
pub open spec fn open_wf(b: CommonBuildV) -> bool {
    forall|i: int| 0 <= i < b.overflow.len() ==> !is_open_key(#[trigger] b.overflow[i].0@)
}

/// Every declared field that the document binds is bound once with the
/// declared shape — an absent field is no fault of the open strategy, which
/// fills its slot with the field's default.
pub open spec fn open_ok(f: Seq<(String, JsonValue)>) -> bool {
    &&& common_scan_ok(f)
    &&& opt_str_field(undeclared_of(f), "_class"@) is Some
    &&& at_most_once(undeclared_of(f), "_class"@)
}

/// Key `k` is a reason the open strategy refuses the document: a declared
/// field bound twice or bound to the wrong shape — never an absent or an
/// unrecognized one.
pub open spec fn open_fault(f: Seq<(String, JsonValue)>, k: Seq<char>) -> bool {
    ||| common_scan_fault(f, k)
    ||| (k == "_class"@ && !(at_most_once(undeclared_of(f), k) && opt_str_field(
        undeclared_of(f),
        k,
    ) is Some))
}

/// The string slot `v` holds the bound string, or stays empty for an absent
/// key.
pub open spec fn lenient_str(o: Option<String>, v: String) -> bool {
    match o {
        Some(s) => v == s,
        None => v@ == Seq::<char>::empty(),
    }
}

/// The common fields the open strategy reads out of the document: each
/// present field's value, and the field's default — zero, false, not-built,
/// the empty string or list — where the document binds nothing.
pub open spec fn open_common_from(f: Seq<(String, JsonValue)>, c: BuildCommonV) -> bool {
    &&& lenient_str(str_field(f, "url"@), c.url)
    &&& c.number == (match u32_field(f, "number"@) {
        Some(n) => n,
        None => 0u32,
    })
    &&& c.duration == (match u32_field(f, "duration"@) {
        Some(n) => n,
        None => 0u32,
    })
    &&& c.estimated_duration == (match u32_field(f, "estimatedDuration"@) {
        Some(n) => n,
        None => 0u32,
    })
    &&& c.timestamp == (match u64_field(f, "timestamp"@) {
        Some(n) => n,
        None => 0u64,
    })
    &&& c.keep_log == (match bool_field(f, "keepLog"@) {
        Some(b) => b,
        None => false,
    })
    &&& c.result == (match status_field(f, "result"@) {
        Some(st) => st,
        None => BuildStatus::NotBuilt,
    })
    &&& lenient_str(str_field(f, "displayName"@), c.display_name)
    &&& lenient_str(str_field(f, "fullDisplayName"@), c.full_display_name)
    &&& c.description == opt_str_field(f, "description"@)->Some_0
    &&& c.building == (match bool_field(f, "building"@) {
        Some(b) => b,
        None => false,
    })
    &&& lenient_str(str_field(f, "id"@), c.id)
    &&& c.queue_id == (match i32_field(f, "queueId"@) {
        Some(n) => n,
        None => 0i32,
    })
    &&& c.actions == (match arr_field(f, "actions"@) {
        Some(a) => a@,
        None => Seq::<JsonValue>::empty(),
    })
    &&& c.artifacts == (match artifacts_field(f) {
        Some(xs) => xs,
        None => Seq::<Artifact>::empty(),
    })
}

/// What the open strategy yields on a document: the common record with
/// every present declared field and defaults for the absent ones, the
/// discriminant, and the overflow container holding every undeclared field
/// verbatim.
pub open spec fn open_decoded(doc: JsonValue, b: CommonBuildV) -> bool {
    &&& doc is Obj
    &&& open_ok(doc->Obj_0@)
    &&& open_common_from(doc->Obj_0@, b.common)
    &&& b.class == opt_str_field(undeclared_of(doc->Obj_0@), "_class"@)->Some_0
    &&& b.overflow == overflow_of(doc->Obj_0@)
}

/// Decode a document under the open strategy: each present declared field
/// into its named slot, the field's default where the document binds
/// nothing, and everything else — the discriminant aside — into the
/// overflow container, in source order. An absent or unrecognized field
/// never makes it fail.
#[verifier::loop_isolation(false)]
#[verifier::rlimit(60)]
pub fn decode_common_build(doc: JsonValue) -> (r: Result<CommonBuild, DecodeError>)
    ensures
        r is Ok <==> (doc is Obj && open_ok(doc->Obj_0@)),
        r matches Ok(b) ==> open_decoded(doc, b@) && open_wf(b@),
        r matches Err(e) ==> e is StructuralDecodeError,
        doc is Obj ==> (r matches Err(e) ==> (e matches DecodeError::StructuralDecodeError {
            field,
        } && open_fault(doc->Obj_0@, field@))),
{
    proof {
        lemma_key_literals();
    }
    let fields = match doc {
        JsonValue::Obj(entries) => entries,
        _ => {
            return Err(structural("url"));
        },
    };
    let (slots, rest) = match scan_common(fields) {
        Ok(p) => p,
        Err(e) => {
            return Err(e);
        },
    };
    let ghost orig_rest = rest@;
    let mut rest = rest;
    let ghost mut pre: Seq<(String, JsonValue)> = Seq::empty();
    let mut class_s: Option<Option<String>> = None;
    let mut overflow: Vec<(String, JsonValue)> = Vec::new();
    while rest.len() > 0
        invariant
            orig_rest == pre + rest@,
            opt_str_inv(pre, "_class"@, class_s),
            overflow@ == class_removed(pre),
            forall|i: int| 0 <= i < rest@.len() ==> !is_common_key(#[trigger] rest@[i].0@),
            forall|i: int| 0 <= i < pre.len() ==> !is_common_key(#[trigger] pre[i].0@),
            forall|i: int| 0 <= i < overflow@.len() ==> !is_open_key(#[trigger] overflow@[i].0@),
        decreases rest.len(),
    {
        let ghost pref = rest@;
        let kv = rest.remove(0);
        let ghost e = kv;
        let (k, v) = kv;
        proof {
            assert(pre.push(e) + rest@ =~= pre + pref);
            assert(orig_rest.subrange(0, pre.len() as int + 1) =~= pre.push(e));
            lemma_push_keys(pre, e);
            lemma_sub_keys(orig_rest, pre.len() as int + 1);
            lemma_class_removed_push(pre, e);
        }
        if str_eq(k.as_str(), "_class") {
            if class_s.is_some() {
                return Err(structural_key(k));
            }
            match v {
                JsonValue::Str(s) => {
                    class_s = Some(Some(s));
                },
                JsonValue::Null => {
                    class_s = Some(None);
                },
                _ => {
                    return Err(structural_key(k));
                },
            }
        } else {
            overflow.push((k, v));
        }
        proof {
            pre = pre.push(e);
        }
    }
    proof {
        assert(pre =~= orig_rest);
    }
    let class = match class_s {
        Some(c) => c,
        None => None,
    };
    let common = BuildCommon {
        url: match slots.url {
            Some(x) => x,
            None => String::new(),
        },
        number: match slots.number {
            Some(x) => x,
            None => 0,
        },
        duration: match slots.duration {
            Some(x) => x,
            None => 0,
        },
        estimated_duration: match slots.estimated_duration {
            Some(x) => x,
            None => 0,
        },
        timestamp: match slots.timestamp {
            Some(x) => x,
            None => 0,
        },
        keep_log: match slots.keep_log {
            Some(x) => x,
            None => false,
        },
        result: match slots.result {
            Some(x) => x,
            None => BuildStatus::NotBuilt,
        },
        display_name: match slots.display_name {
            Some(x) => x,
            None => String::new(),
        },
        full_display_name: match slots.full_display_name {
            Some(x) => x,
            None => String::new(),
        },
        description: match slots.description {
            Some(x) => x,
            None => None,
        },
        building: match slots.building {
            Some(x) => x,
            None => false,
        },
        id: match slots.id {
            Some(x) => x,
            None => String::new(),
        },
        queue_id: match slots.queue_id {
            Some(x) => x,
            None => 0,
        },
        actions: match slots.actions {
            Some(x) => x,
            None => Vec::new(),
        },
        artifacts: match slots.artifacts {
            Some(x) => x,
            None => Vec::new(),
        },
    };
    Ok(CommonBuild { common, class, overflow })
}

impl CommonBuild {
    /// URL of the build; always present on the open record.
    pub fn url(&self) -> (r: &str)
        ensures
            r@ == self@.common.url@,
    {
        self.common.url.as_str()
    }

    /// Timestamp of the build; always present on the open record.
    pub fn timestamp(&self) -> (r: u64)
        ensures
            r == self@.common.timestamp,
    {
        self.common.timestamp
    }

    /// Result of the build; always present on the open record.
    pub fn result(&self) -> (r: BuildStatus)
        ensures
            r == self@.common.result,
    {
        self.common.result
    }

    /// Number of the build; always present on the open record.
    pub fn number(&self) -> (r: u32)
        ensures
            r == self@.common.number,
    {
        self.common.number
    }

    /// Duration of the build; always present on the open record.
    pub fn duration(&self) -> (r: u32)
        ensures
            r == self@.common.duration,
    {
        self.common.duration
    }

    /// Estimated duration of the build; always present on the open record.
    pub fn estimated_duration(&self) -> (r: u32)
        ensures
            r == self@.common.estimated_duration,
    {
        self.common.estimated_duration
    }

    /// Keep-log flag of the build; always present on the open record.
    pub fn keep_log(&self) -> (r: bool)
        ensures
            r == self@.common.keep_log,
    {
        self.common.keep_log
    }

    /// Display name of the build; always present on the open record.
    pub fn display_name(&self) -> (r: &str)
        ensures
            r@ == self@.common.display_name@,
    {
        self.common.display_name.as_str()
    }

    /// Full display name of the build; always present on the open record.
    pub fn full_display_name(&self) -> (r: &str)
        ensures
            r@ == self@.common.full_display_name@,
    {
        self.common.full_display_name.as_str()
    }

    /// Description of the build; always present on the open record.
    pub fn description(&self) -> (r: &Option<String>)
        ensures
            *r == self@.common.description,
    {
        &self.common.description
    }

    /// Building flag of the build; always present on the open record.
    pub fn building(&self) -> (r: bool)
        ensures
            r == self@.common.building,
    {
        self.common.building
    }

    /// String id of the build; always present on the open record.
    pub fn id(&self) -> (r: &str)
        ensures
            r@ == self@.common.id@,
    {
        self.common.id.as_str()
    }

    /// Queue id of the build; always present on the open record.
    pub fn queue_id(&self) -> (r: i32)
        ensures
            r == self@.common.queue_id,
    {
        self.common.queue_id
    }

    /// Actions of the build; always present on the open record.
    pub fn actions(&self) -> (r: &Vec<JsonValue>)
        ensures
            r@ == self@.common.actions,
    {
        &self.common.actions
    }

    /// Artifacts of the build; always present on the open record.
    pub fn artifacts(&self) -> (r: &Vec<Artifact>)
        ensures
            r@ == self@.common.artifacts,
    {
        &self.common.artifacts
    }
}


/// The entries bind `k` exactly once, to `v`.
pub open spec fn req_entry(f: Seq<(String, JsonValue)>, k: Seq<char>, v: JsonValue) -> bool {
    has_key(f, k) && at_most_once(f, k) && key_value(f, k) == v
}

/// The declared part of a re-encoded record: every declared field bound
/// exactly once to the value the record carries, the optional ones bound
/// exactly when the record carries them.
pub open spec fn declared_encoding(b: CommonBuildV, enc: Seq<(String, JsonValue)>) -> bool {
    &&& req_entry(enc, "url"@, JsonValue::Str(b.common.url))
    &&& req_entry(enc, "number"@, JsonValue::Int(b.common.number as i64))
    &&& req_entry(enc, "duration"@, JsonValue::Int(b.common.duration as i64))
    &&& req_entry(enc, "estimatedDuration"@, JsonValue::Int(b.common.estimated_duration as i64))
    &&& req_entry(enc, "timestamp"@, JsonValue::Int(b.common.timestamp as i64))
    &&& req_entry(enc, "keepLog"@, JsonValue::Bool(b.common.keep_log))
    &&& has_key(enc, "result"@) && at_most_once(enc, "result"@) && (key_value(enc, "result"@)
        matches JsonValue::Str(s) && status_of(s@) == Some(b.common.result))
    &&& req_entry(enc, "displayName"@, JsonValue::Str(b.common.display_name))
    &&& req_entry(enc, "fullDisplayName"@, JsonValue::Str(b.common.full_display_name))
    &&& (b.common.description matches Some(d) ==> req_entry(
        enc,
        "description"@,
        JsonValue::Str(d),
    ))
    &&& (b.common.description is None ==> !has_key(enc, "description"@))
    &&& req_entry(enc, "building"@, JsonValue::Bool(b.common.building))
    &&& req_entry(enc, "id"@, JsonValue::Str(b.common.id))
    &&& req_entry(enc, "queueId"@, JsonValue::Int(b.common.queue_id as i64))
    &&& has_key(enc, "actions"@) && at_most_once(enc, "actions"@) && (key_value(enc, "actions"@)
        matches JsonValue::Arr(a) && a@ == b.common.actions)
    &&& has_key(enc, "artifacts"@) && at_most_once(enc, "artifacts"@) && (key_value(
        enc,
        "artifacts"@,
    ) matches JsonValue::Arr(a) && artifacts_of(a@) == Some(b.common.artifacts))
    &&& (b.class matches Some(c) ==> req_entry(enc, "_class"@, JsonValue::Str(c)))
    &&& (b.class is None ==> !has_key(enc, "_class"@))
}

/// A faithful re-encoding of the record: the declared bindings, and an
/// overflow remainder equal to the record's overflow container.
pub open spec fn is_open_encoding(b: CommonBuildV, enc: Seq<(String, JsonValue)>) -> bool {
    declared_encoding(b, enc) && overflow_of(enc) == b.overflow
}

/// The overflow remainder of no entries is empty.
pub proof fn lemma_overflow_empty()
    ensures
        overflow_of(Seq::<(String, JsonValue)>::empty()) == Seq::<(String, JsonValue)>::empty(),
{
    reveal(Seq::filter);
}

/// How appending one entry changes the overflow remainder.
pub proof fn lemma_overflow_push(f: Seq<(String, JsonValue)>, e: (String, JsonValue))
    ensures
        overflow_of(f.push(e)) == if is_open_key(e.0@) {
            overflow_of(f)
        } else {
            overflow_of(f).push(e)
        },
{
    lemma_undeclared_push(f, e);
    if !is_common_key(e.0@) {
        lemma_class_removed_push(undeclared_of(f), e);
    }
}


impl CommonBuild {
    /// Re-encode the record as a document: the declared fields first, then
    /// every overflow entry, in its source order. Consumes the record, so
    /// every carried value returns to the document unchanged.
    #[verifier::loop_isolation(false)]
    #[verifier::rlimit(100)]
    pub fn encode(self) -> (r: JsonValue)
        requires
            open_wf(self@),
        ensures
            r is Obj,
            is_open_encoding(self@, r->Obj_0@),
    {
        proof {
            lemma_key_literals();
            lemma_overflow_empty();
        }
        let ghost me = self@;
        let CommonBuild { common, class, overflow } = self;
        let BuildCommon {
            url,
            number,
            duration,
            estimated_duration,
            timestamp,
            keep_log,
            result,
            display_name,
            full_display_name,
            description,
            building,
            id,
            queue_id,
            actions,
            artifacts,
        } = common;
        let mut out: Vec<(String, JsonValue)> = Vec::new();
    let ghost o1 = out@;
    out.push(("url".to_owned(), JsonValue::Str(url)));
    proof {
        lemma_push_keys(o1, out@.last());
        lemma_overflow_push(o1, out@.last());
        assert(out@ == o1.push(out@.last()));
    }
    let ghost o2 = out@;
    out.push(("number".to_owned(), JsonValue::Int(number as i64)));
    proof {
        lemma_push_keys(o2, out@.last());
        lemma_overflow_push(o2, out@.last());
        assert(out@ == o2.push(out@.last()));
    }
    let ghost o3 = out@;
    out.push(("duration".to_owned(), JsonValue::Int(duration as i64)));
    proof {
        lemma_push_keys(o3, out@.last());
        lemma_overflow_push(o3, out@.last());
        assert(out@ == o3.push(out@.last()));
    }
    let ghost o4 = out@;
    out.push(("estimatedDuration".to_owned(), JsonValue::Int(estimated_duration as i64)));
    proof {
        lemma_push_keys(o4, out@.last());
        lemma_overflow_push(o4, out@.last());
        assert(out@ == o4.push(out@.last()));
    }
    let ghost o5 = out@;
    out.push(("timestamp".to_owned(), JsonValue::Int(#[verifier::truncate] (timestamp as i64))));
    proof {
        lemma_push_keys(o5, out@.last());
        lemma_overflow_push(o5, out@.last());
        assert(out@ == o5.push(out@.last()));
    }
    let ghost o6 = out@;
    out.push(("keepLog".to_owned(), JsonValue::Bool(keep_log)));
    proof {
        lemma_push_keys(o6, out@.last());
        lemma_overflow_push(o6, out@.last());
        assert(out@ == o6.push(out@.last()));
    }
    let ghost o7 = out@;
    out.push(("result".to_owned(), JsonValue::Str(status_name(result).to_owned())));
    proof {
        lemma_push_keys(o7, out@.last());
        lemma_overflow_push(o7, out@.last());
        assert(out@ == o7.push(out@.last()));
    }
    let ghost o8 = out@;
    out.push(("displayName".to_owned(), JsonValue::Str(display_name)));
    proof {
        lemma_push_keys(o8, out@.last());
        lemma_overflow_push(o8, out@.last());
        assert(out@ == o8.push(out@.last()));
    }
    let ghost o9 = out@;
    out.push(("fullDisplayName".to_owned(), JsonValue::Str(full_display_name)));
    proof {
        lemma_push_keys(o9, out@.last());
        lemma_overflow_push(o9, out@.last());
        assert(out@ == o9.push(out@.last()));
    }
    match description {
        Some(d) => {
            let ghost o10 = out@;
            out.push(("description".to_owned(), JsonValue::Str(d)));
            proof {
                lemma_push_keys(o10, out@.last());
                lemma_overflow_push(o10, out@.last());
                assert(out@ == o10.push(out@.last()));
            }
        },
        None => {},
    }
    let ghost o11 = out@;
    out.push(("building".to_owned(), JsonValue::Bool(building)));
    proof {
        lemma_push_keys(o11, out@.last());
        lemma_overflow_push(o11, out@.last());
        assert(out@ == o11.push(out@.last()));
    }
    let ghost o12 = out@;
    out.push(("id".to_owned(), JsonValue::Str(id)));
    proof {
        lemma_push_keys(o12, out@.last());
        lemma_overflow_push(o12, out@.last());
        assert(out@ == o12.push(out@.last()));
    }
    let ghost o13 = out@;
    out.push(("queueId".to_owned(), JsonValue::Int(queue_id as i64)));
    proof {
        lemma_push_keys(o13, out@.last());
        lemma_overflow_push(o13, out@.last());
        assert(out@ == o13.push(out@.last()));
    }
    let ghost o14 = out@;
    out.push(("actions".to_owned(), JsonValue::Arr(actions)));
    proof {
        lemma_push_keys(o14, out@.last());
        lemma_overflow_push(o14, out@.last());
        assert(out@ == o14.push(out@.last()));
    }
    let ghost o15 = out@;
    out.push(("artifacts".to_owned(), JsonValue::Arr(encode_artifacts(artifacts))));
    proof {
        lemma_push_keys(o15, out@.last());
        lemma_overflow_push(o15, out@.last());
        assert(out@ == o15.push(out@.last()));
    }
    match class {
        Some(c) => {
            let ghost o16 = out@;
            out.push(("_class".to_owned(), JsonValue::Str(c)));
            proof {
                lemma_push_keys(o16, out@.last());
                lemma_overflow_push(o16, out@.last());
                assert(out@ == o16.push(out@.last()));
            }
        },
        None => {},
    }
        proof {
            assert(declared_encoding(me, out@));
            assert(overflow_of(out@) =~= me.overflow.subrange(0, 0));
        }
        let ghost base = out@;
        let mut ovf = overflow;
        while ovf.len() > 0
            invariant
                ovf.len() <= me.overflow.len(),
                forall|i: int|
                    0 <= i < ovf@.len() ==> ovf@[i] == me.overflow[me.overflow.len() - ovf@.len()
                        + i],
                declared_encoding(me, out@),
                overflow_of(out@) == me.overflow.subrange(
                    0,
                    me.overflow.len() - ovf@.len(),
                ),
            decreases ovf.len(),
        {
            let ghost done = (me.overflow.len() - ovf@.len()) as int;
            let kv = ovf.remove(0);
            let ghost e = kv;
            proof {
                assert(e == me.overflow[done]);
                assert(!is_open_key(e.0@));
                lemma_push_keys(out@, e);
                lemma_overflow_push(out@, e);
            }
            out.push(kv);
            proof {
                assert(overflow_of(out@) =~= me.overflow.subrange(0, done + 1));
            }
        }
        proof {
            assert(me.overflow.subrange(0, me.overflow.len() as int) =~= me.overflow);
        }
        JsonValue::Obj(out)
    }
}


/// A key the common record does not declare is bound in the undeclared
/// remainder exactly as in the whole entry sequence.
pub proof fn lemma_undeclared_keys(f: Seq<(String, JsonValue)>, k: Seq<char>)
    requires
        !is_common_key(k),
    ensures
        has_key(undeclared_of(f), k) == has_key(f, k),
        at_most_once(undeclared_of(f), k) == at_most_once(f, k),
        has_key(f, k) && at_most_once(f, k) ==> key_value(undeclared_of(f), k) == key_value(f, k),
    decreases f.len(),
{
    if f.len() == 0 {
        assert(undeclared_of(f) == f) by {
            reveal(Seq::filter);
        }
        assert(!has_key(f, k));
    } else {
        let g = f.drop_last();
        let e = f.last();
        lemma_undeclared_keys(g, k);
        assert(g.push(e) == f) by {
            assert(g.push(e) =~= f);
        }
        lemma_undeclared_push(g, e);
        lemma_push_keys(g, e);
        if !is_common_key(e.0@) {
            lemma_push_keys(undeclared_of(g), e);
        }
        if e.0@ == k {
            if has_key(g, k) {
                assert(!at_most_once(f, k));
                assert(!at_most_once(undeclared_of(f), k));
            } else {
                assert(key_value(f, k) == e.1);
                assert(key_value(undeclared_of(f), k) == e.1);
            }
        }
    }
}

/// A key other than the discriminant key is bound in the class-removed
/// remainder exactly as in the whole entry sequence.
pub proof fn lemma_class_removed_keys(f: Seq<(String, JsonValue)>, k: Seq<char>)
    requires
        k != "_class"@,
    ensures
        has_key(class_removed(f), k) == has_key(f, k),
        at_most_once(class_removed(f), k) == at_most_once(f, k),
        has_key(f, k) && at_most_once(f, k) ==> key_value(class_removed(f), k) == key_value(f, k),
    decreases f.len(),
{
    if f.len() == 0 {
        assert(class_removed(f) == f) by {
            reveal(Seq::filter);
        }
        assert(!has_key(f, k));
    } else {
        let g = f.drop_last();
        let e = f.last();
        lemma_class_removed_keys(g, k);
        assert(g.push(e) == f) by {
            assert(g.push(e) =~= f);
        }
        lemma_class_removed_push(g, e);
        lemma_push_keys(g, e);
        if e.0@ != "_class"@ {
            lemma_push_keys(class_removed(g), e);
        }
        if e.0@ == k {
            if has_key(g, k) {
                assert(!at_most_once(f, k));
                assert(!at_most_once(class_removed(f), k));
            } else {
                assert(key_value(f, k) == e.1);
                assert(key_value(class_removed(f), k) == e.1);
            }
        }
    }
}

/// A key the open record does not declare is bound in the overflow
/// remainder exactly as in the whole entry sequence.
pub proof fn lemma_overflow_keys(f: Seq<(String, JsonValue)>, k: Seq<char>)
    requires
        !is_open_key(k),
    ensures
        has_key(overflow_of(f), k) == has_key(f, k),
        at_most_once(overflow_of(f), k) == at_most_once(f, k),
        has_key(f, k) && at_most_once(f, k) ==> key_value(overflow_of(f), k) == key_value(f, k),
{
    lemma_undeclared_keys(f, k);
    lemma_class_removed_keys(undeclared_of(f), k);
}

/// Every entry of the overflow remainder carries an undeclared key.
pub proof fn lemma_overflow_entries(f: Seq<(String, JsonValue)>)
    ensures
        forall|i: int|
            0 <= i < overflow_of(f).len() ==> !is_open_key(#[trigger] overflow_of(f)[i].0@),
    decreases f.len(),
{
    if f.len() == 0 {
        lemma_overflow_empty();
        assert(overflow_of(f) == overflow_of(Seq::<(String, JsonValue)>::empty())) by {
            assert(f =~= Seq::<(String, JsonValue)>::empty());
        }
    } else {
        let g = f.drop_last();
        let e = f.last();
        lemma_overflow_entries(g);
        assert(g.push(e) == f) by {
            assert(g.push(e) =~= f);
        }
        lemma_overflow_push(g, e);
    }
}

/// Law: the open decode drops no field. A key the record does not declare
/// sits in the overflow container exactly when the source document bound
/// it, and no declared key leaks into the overflow container.
pub proof fn lemma_open_no_field_dropped(doc: JsonValue, b: CommonBuildV)
    requires
        open_decoded(doc, b),
    ensures
        forall|k: Seq<char>|
            !is_open_key(k) ==> (#[trigger] has_key(b.overflow, k) == has_key(doc->Obj_0@, k)),
        forall|i: int| 0 <= i < b.overflow.len() ==> !is_open_key(#[trigger] b.overflow[i].0@),
{
    let f = doc->Obj_0@;
    assert forall|k: Seq<char>| !is_open_key(k) implies (#[trigger] has_key(b.overflow, k)
        == has_key(f, k)) by {
        lemma_overflow_keys(f, k);
    }
    lemma_overflow_entries(f);
}


/// Law: re-encoding a decoded record reproduces the source document's keys
/// exactly, and binds every key to an equal value — the re-spelt `result`
/// and the re-encoded `artifacts` to one equal in content. The document
/// must bind every declared common field (an absent one decodes to a
/// default that re-encoding would write out), and the two optional string
/// fields must not be bound to null, which decodes to the same record as
/// their absence.
#[verifier::rlimit(60)]
pub proof fn lemma_open_round_trip(doc: JsonValue, b: CommonBuildV, enc: Seq<(String, JsonValue)>)
    requires
        open_decoded(doc, b),
        common_ok(doc->Obj_0@),
        is_open_encoding(b, enc),
        has_key(doc->Obj_0@, "description"@) ==> key_value(doc->Obj_0@, "description"@) is Str,
        has_key(doc->Obj_0@, "_class"@) ==> key_value(doc->Obj_0@, "_class"@) is Str,
    ensures
        forall|k: Seq<char>| #[trigger] has_key(enc, k) == has_key(doc->Obj_0@, k),
        key_set(enc) =~= key_set(doc->Obj_0@),
        forall|k: Seq<char>|
            !is_open_key(k) && at_most_once(doc->Obj_0@, k) && has_key(doc->Obj_0@, k)
                ==> #[trigger] key_value(enc, k) == key_value(doc->Obj_0@, k),
        key_value(enc, "url"@) == key_value(doc->Obj_0@, "url"@),
        key_value(enc, "number"@) == key_value(doc->Obj_0@, "number"@),
        key_value(enc, "duration"@) == key_value(doc->Obj_0@, "duration"@),
        key_value(enc, "estimatedDuration"@) == key_value(doc->Obj_0@, "estimatedDuration"@),
        key_value(enc, "timestamp"@) == key_value(doc->Obj_0@, "timestamp"@),
        key_value(enc, "keepLog"@) == key_value(doc->Obj_0@, "keepLog"@),
        key_value(enc, "displayName"@) == key_value(doc->Obj_0@, "displayName"@),
        key_value(enc, "fullDisplayName"@) == key_value(doc->Obj_0@, "fullDisplayName"@),
        key_value(enc, "building"@) == key_value(doc->Obj_0@, "building"@),
        key_value(enc, "id"@) == key_value(doc->Obj_0@, "id"@),
        key_value(enc, "queueId"@) == key_value(doc->Obj_0@, "queueId"@),
        has_key(doc->Obj_0@, "description"@) ==> key_value(enc, "description"@) == key_value(
            doc->Obj_0@,
            "description"@,
        ),
        has_key(doc->Obj_0@, "_class"@) ==> key_value(enc, "_class"@) == key_value(
            doc->Obj_0@,
            "_class"@,
        ),
        key_value(enc, "result"@) matches JsonValue::Str(s1) && (key_value(
            doc->Obj_0@,
            "result"@,
        ) matches JsonValue::Str(s2) && s1@ == s2@),
        key_value(enc, "artifacts"@) matches JsonValue::Arr(a1) && (key_value(
            doc->Obj_0@,
            "artifacts"@,
        ) matches JsonValue::Arr(a2) && artifacts_of(a1@) == artifacts_of(a2@)),
{
    lemma_key_literals();
    crate::builds::lemma_status_literals();
    let f = doc->Obj_0@;
    lemma_undeclared_keys(f, "_class"@);
    assert forall|k: Seq<char>| !is_open_key(k) implies (#[trigger] has_key(enc, k) == has_key(
        f,
        k,
    )) by {
        lemma_overflow_keys(enc, k);
        lemma_overflow_keys(f, k);
    }
    assert forall|k: Seq<char>|
        !is_open_key(k) && at_most_once(f, k) && has_key(f, k) implies #[trigger] key_value(enc, k)
        == key_value(f, k) by {
        lemma_overflow_keys(enc, k);
        lemma_overflow_keys(f, k);
    }
    assert forall|k: Seq<char>| #[trigger] has_key(enc, k) == has_key(f, k) by {
        if !is_open_key(k) {
        } else {
            assert(has_key(enc, k) == has_key(f, k));
        }
    }
    assert(key_set(enc) =~= key_set(f));
    assert((b.common.number as i64) == key_value(f, "number"@)->Int_0);
    assert((b.common.timestamp as i64) == key_value(f, "timestamp"@)->Int_0);
    assert((b.common.queue_id as i64) == key_value(f, "queueId"@)->Int_0);
}

/// Law: the open decode is deterministic — any two records decoded from
/// equal payloads agree on every field (on the defaulted string slots, up
/// to the characters they hold).
pub proof fn lemma_decode_open_deterministic(doc: JsonValue, b1: CommonBuildV, b2: CommonBuildV)
    requires
        open_decoded(doc, b1),
        open_decoded(doc, b2),
    ensures
        b1.common.url@ == b2.common.url@,
        b1.common.number == b2.common.number,
        b1.common.duration == b2.common.duration,
        b1.common.estimated_duration == b2.common.estimated_duration,
        b1.common.timestamp == b2.common.timestamp,
        b1.common.keep_log == b2.common.keep_log,
        b1.common.result == b2.common.result,
        b1.common.display_name@ == b2.common.display_name@,
        b1.common.full_display_name@ == b2.common.full_display_name@,
        b1.common.description == b2.common.description,
        b1.common.building == b2.common.building,
        b1.common.id@ == b2.common.id@,
        b1.common.queue_id == b2.common.queue_id,
        b1.common.actions == b2.common.actions,
        b1.common.artifacts == b2.common.artifacts,
        b1.class == b2.class,
        b1.overflow == b2.overflow,
{
}

} // verus!
