//! The closed tagged-union strategy: a fixed set of build shapes selected by
//! the `_class` discriminant, with a fallback variant that preserves the raw
//! payload of any unrecognized discriminant, and the uniform common-field
//! read interface over the result.
use vstd::prelude::*;

use crate::builds::{
    decode_short_build, decode_short_builds, short_build_of, short_builds_of, Artifact,
    BuildStatus, ShortBuild,
};
use crate::common::{
    common_ok, extract_common, spec_common, undeclared_of, BuildCommon, BuildCommonV,
};
use crate::error::{structural, structural_key, DecodeError};
use crate::value::{
    arr_field, arr_inv, at_most_once, has_key, key_value, lemma_key_literals, lemma_push_keys,
    lemma_sub_keys, str_eq, str_field, str_inv, val_field, val_inv, JsonValue,
};

verus! {

/// A build of a job: one known shape per recognized discriminant, and the
/// fallback variant holding the raw payload of any unrecognized one.
#[derive(Debug, PartialEq)]
pub enum Build {
    /// A build from a FreeStyleProject
    FreeStyleBuild { common: BuildCommon, built_on: String, change_set: JsonValue },
    /// A build from a WorkflowJob
    WorkflowRun {
        common: BuildCommon,
        change_sets: Vec<JsonValue>,
        previous_build: Option<ShortBuild>,
    },
    /// A build from a MatrixProject
    MatrixBuild { common: BuildCommon, change_set: JsonValue, runs: Vec<ShortBuild> },
    /// A build of a matrix configuration
    MatrixRun { common: BuildCommon, change_set: JsonValue },
    /// A build of a MavenModuleSet
    MavenModuleSetBuild {
        common: BuildCommon,
        change_set: JsonValue,
        maven_version_used: String,
        built_on: String,
    },
    /// A build of a MavenModule
    MavenBuild {
        common: BuildCommon,
        change_set: JsonValue,
        built_on: String,
        maven_artifacts: JsonValue,
    },
    /// A build whose discriminant matched no known shape: the payload is kept
    /// verbatim, with the discriminant when one was recoverable.
    Unknown { class: Option<String>, payload: JsonValue },
}

/// The mathematical image of `Build`.
#[verifier::ext_equal]
pub ghost enum BuildV {
    FreeStyleBuild { common: BuildCommonV, built_on: String, change_set: JsonValue },
    WorkflowRun {
        common: BuildCommonV,
        change_sets: Seq<JsonValue>,
        previous_build: Option<ShortBuild>,
    },
    MatrixBuild { common: BuildCommonV, change_set: JsonValue, runs: Seq<ShortBuild> },
    MatrixRun { common: BuildCommonV, change_set: JsonValue },
    MavenModuleSetBuild {
        common: BuildCommonV,
        change_set: JsonValue,
        maven_version_used: String,
        built_on: String,
    },
    MavenBuild {
        common: BuildCommonV,
        change_set: JsonValue,
        built_on: String,
        maven_artifacts: JsonValue,
    },
    Unknown { class: Option<String>, payload: JsonValue },
}

impl View for Build {
    type V = BuildV;

    open spec fn view(&self) -> BuildV {
        match self {
            Build::FreeStyleBuild { common, built_on, change_set } => BuildV::FreeStyleBuild {
                common: common@,
                built_on: *built_on,
                change_set: *change_set,
            },
            Build::WorkflowRun { common, change_sets, previous_build } => BuildV::WorkflowRun {
                common: common@,
                change_sets: change_sets@,
                previous_build: *previous_build,
            },
            Build::MatrixBuild { common, change_set, runs } => BuildV::MatrixBuild {
                common: common@,
                change_set: *change_set,
                runs: runs@,
            },
            Build::MatrixRun { common, change_set } => BuildV::MatrixRun {
                common: common@,
                change_set: *change_set,
            },
            Build::MavenModuleSetBuild { common, change_set, maven_version_used, built_on } => {
                BuildV::MavenModuleSetBuild {
                    common: common@,
                    change_set: *change_set,
                    maven_version_used: *maven_version_used,
                    built_on: *built_on,
                }
            },
            Build::MavenBuild { common, change_set, built_on, maven_artifacts } => {
                BuildV::MavenBuild {
                    common: common@,
                    change_set: *change_set,
                    built_on: *built_on,
                    maven_artifacts: *maven_artifacts,
                }
            },
            Build::Unknown { class, payload } => BuildV::Unknown {
                class: *class,
                payload: *payload,
            },
        }
    }
}

/// The discriminant of a document: the string bound exactly once to the
/// reserved key `_class`. A missing key, a duplicated key or a non-string
/// value all count as "no discriminant".
pub open spec fn class_tag_of(doc: JsonValue) -> Option<String> {
    match doc {
        JsonValue::Obj(entries) => if has_key(entries@, "_class"@) && at_most_once(
            entries@,
            "_class"@,
        ) && key_value(entries@, "_class"@) is Str {
            Some(key_value(entries@, "_class"@)->Str_0)
        } else {
            None
        },
        _ => None,
    }
}

/// Whether a discriminant names one of the statically known shapes.
pub open spec fn known_tag(t: Seq<char>) -> bool {
    ||| t == "hudson.model.FreeStyleBuild"@
    ||| t == "org.jenkinsci.plugins.workflow.job.WorkflowRun"@
    ||| t == "hudson.matrix.MatrixBuild"@
    ||| t == "hudson.matrix.MatrixRun"@
    ||| t == "hudson.maven.MavenModuleSetBuild"@
    ||| t == "hudson.maven.MavenBuild"@
}

/// An optional nested short build: absent and null both read as none.
pub open spec fn opt_short_build_field(f: Seq<(String, JsonValue)>, k: Seq<char>) -> Option<
    Option<ShortBuild>,
> {
    if has_key(f, k) {
        match key_value(f, k) {
            JsonValue::Null => Some(None),
            v => match short_build_of(v) {
                Some(b) => Some(Some(b)),
                None => None,
            },
        }
    } else {
        Some(None)
    }
}

/// As the other slot invariants, for an optional nested short build.
pub open spec fn opt_short_build_inv(
    f: Seq<(String, JsonValue)>,
    k: Seq<char>,
    slot: Option<Option<ShortBuild>>,
) -> bool {
    &&& at_most_once(f, k)
    &&& (has_key(f, k) ==> opt_short_build_field(f, k) is Some && slot == Some(
        opt_short_build_field(f, k)->Some_0,
    ))
    &&& (!has_key(f, k) ==> slot is None)
}

/// An array of short builds bound to key `k`, decoded element by element.
pub open spec fn short_build_list_field(f: Seq<(String, JsonValue)>, k: Seq<char>) -> Option<
    Seq<ShortBuild>,
> {
    match arr_field(f, k) {
        Some(a) => short_builds_of(a@),
        None => None,
    }
}

/// As the other slot invariants, for a decoded short-build list.
pub open spec fn short_build_list_inv(
    f: Seq<(String, JsonValue)>,
    k: Seq<char>,
    slot: Option<Vec<ShortBuild>>,
) -> bool {
    &&& at_most_once(f, k)
    &&& (!has_key(f, k) ==> slot is None)
    &&& (has_key(f, k) ==> arr_field(f, k) is Some && short_build_list_field(f, k) is Some && (
    slot matches Some(bs) && bs@ == short_build_list_field(f, k)->Some_0))
}

/// The FreeStyleBuild shape's own fields are well formed.
pub open spec fn freestyle_ok(rest: Seq<(String, JsonValue)>) -> bool {
    &&& str_field(rest, "builtOn"@) is Some && at_most_once(rest, "builtOn"@)
    &&& val_field(rest, "changeSet"@) is Some && at_most_once(rest, "changeSet"@)
}

/// The WorkflowRun shape's own fields are well formed.
pub open spec fn workflow_ok(rest: Seq<(String, JsonValue)>) -> bool {
    &&& arr_field(rest, "changeSets"@) is Some && at_most_once(rest, "changeSets"@)
    &&& opt_short_build_field(rest, "previousBuild"@) is Some && at_most_once(
        rest,
        "previousBuild"@,
    )
}

/// The MatrixBuild shape's own fields are well formed.
pub open spec fn matrix_build_ok(rest: Seq<(String, JsonValue)>) -> bool {
    &&& val_field(rest, "changeSet"@) is Some && at_most_once(rest, "changeSet"@)
    &&& short_build_list_field(rest, "runs"@) is Some && at_most_once(rest, "runs"@)
}

/// The MatrixRun shape's own fields are well formed.
pub open spec fn matrix_run_ok(rest: Seq<(String, JsonValue)>) -> bool {
    &&& val_field(rest, "changeSet"@) is Some && at_most_once(rest, "changeSet"@)
}

/// The MavenModuleSetBuild shape's own fields are well formed.
pub open spec fn maven_module_set_ok(rest: Seq<(String, JsonValue)>) -> bool {
    &&& val_field(rest, "changeSet"@) is Some && at_most_once(rest, "changeSet"@)
    &&& str_field(rest, "mavenVersionUsed"@) is Some && at_most_once(rest, "mavenVersionUsed"@)
    &&& str_field(rest, "builtOn"@) is Some && at_most_once(rest, "builtOn"@)
}

/// The MavenBuild shape's own fields are well formed.
pub open spec fn maven_build_ok(rest: Seq<(String, JsonValue)>) -> bool {
    &&& val_field(rest, "changeSet"@) is Some && at_most_once(rest, "changeSet"@)
    &&& str_field(rest, "builtOn"@) is Some && at_most_once(rest, "builtOn"@)
    &&& val_field(rest, "mavenArtifacts"@) is Some && at_most_once(rest, "mavenArtifacts"@)
}

/// What a document decodes to under the shape named by its (known) tag.
pub open spec fn spec_decode_shape(tag: Seq<char>, f: Seq<(String, JsonValue)>) -> Option<BuildV> {
    let rest = undeclared_of(f);
    if !common_ok(f) {
        None
    } else if tag == "hudson.model.FreeStyleBuild"@ {
        if freestyle_ok(rest) {
            Some(
                BuildV::FreeStyleBuild {
                    common: spec_common(f),
                    built_on: str_field(rest, "builtOn"@)->Some_0,
                    change_set: val_field(rest, "changeSet"@)->Some_0,
                },
            )
        } else {
            None
        }
    } else if tag == "org.jenkinsci.plugins.workflow.job.WorkflowRun"@ {
        if workflow_ok(rest) {
            Some(
                BuildV::WorkflowRun {
                    common: spec_common(f),
                    change_sets: arr_field(rest, "changeSets"@)->Some_0@,
                    previous_build: opt_short_build_field(rest, "previousBuild"@)->Some_0,
                },
            )
        } else {
            None
        }
    } else if tag == "hudson.matrix.MatrixBuild"@ {
        if matrix_build_ok(rest) {
            Some(
                BuildV::MatrixBuild {
                    common: spec_common(f),
                    change_set: val_field(rest, "changeSet"@)->Some_0,
                    runs: short_build_list_field(rest, "runs"@)->Some_0,
                },
            )
        } else {
            None
        }
    } else if tag == "hudson.matrix.MatrixRun"@ {
        if matrix_run_ok(rest) {
            Some(
                BuildV::MatrixRun {
                    common: spec_common(f),
                    change_set: val_field(rest, "changeSet"@)->Some_0,
                },
            )
        } else {
            None
        }
    } else if tag == "hudson.maven.MavenModuleSetBuild"@ {
        if maven_module_set_ok(rest) {
            Some(
                BuildV::MavenModuleSetBuild {
                    common: spec_common(f),
                    change_set: val_field(rest, "changeSet"@)->Some_0,
                    maven_version_used: str_field(rest, "mavenVersionUsed"@)->Some_0,
                    built_on: str_field(rest, "builtOn"@)->Some_0,
                },
            )
        } else {
            None
        }
    } else {
        if maven_build_ok(rest) {
            Some(
                BuildV::MavenBuild {
                    common: spec_common(f),
                    change_set: val_field(rest, "changeSet"@)->Some_0,
                    built_on: str_field(rest, "builtOn"@)->Some_0,
                    maven_artifacts: val_field(rest, "mavenArtifacts"@)->Some_0,
                },
            )
        } else {
            None
        }
    }
}

/// What the closed strategy yields on a document: the shape its discriminant
/// names, when the discriminant is known and the declared fields are well
/// formed; the fallback variant, holding the document verbatim, whenever the
/// discriminant is unknown or missing; a structural failure (`None`) only
/// when a known shape's declared field is ill-formed.
pub open spec fn spec_decode_closed(doc: JsonValue) -> Option<BuildV> {
    if class_tag_of(doc) matches Some(t) && known_tag(t@) {
        spec_decode_shape(class_tag_of(doc)->Some_0@, doc->Obj_0@)
    } else {
        Some(BuildV::Unknown { class: class_tag_of(doc), payload: doc })
    }
}

/// Pins the view of every known discriminant literal, so that the tag
/// dispatch can tell them apart wherever needed.
pub proof fn lemma_tag_literals()
    ensures
        "hudson.model.FreeStyleBuild"@ == seq!['h', 'u', 'd', 's', 'o', 'n', '.', 'm', 'o', 'd', 'e', 'l', '.', 'F', 'r', 'e', 'e', 'S', 't', 'y', 'l', 'e', 'B', 'u', 'i', 'l', 'd'],
        "org.jenkinsci.plugins.workflow.job.WorkflowRun"@ == seq!['o', 'r', 'g', '.', 'j', 'e', 'n', 'k', 'i', 'n', 's', 'c', 'i', '.', 'p', 'l', 'u', 'g', 'i', 'n', 's', '.', 'w', 'o', 'r', 'k', 'f', 'l', 'o', 'w', '.', 'j', 'o', 'b', '.', 'W', 'o', 'r', 'k', 'f', 'l', 'o', 'w', 'R', 'u', 'n'],
        "hudson.matrix.MatrixBuild"@ == seq!['h', 'u', 'd', 's', 'o', 'n', '.', 'm', 'a', 't', 'r', 'i', 'x', '.', 'M', 'a', 't', 'r', 'i', 'x', 'B', 'u', 'i', 'l', 'd'],
        "hudson.matrix.MatrixRun"@ == seq!['h', 'u', 'd', 's', 'o', 'n', '.', 'm', 'a', 't', 'r', 'i', 'x', '.', 'M', 'a', 't', 'r', 'i', 'x', 'R', 'u', 'n'],
        "hudson.maven.MavenModuleSetBuild"@ == seq!['h', 'u', 'd', 's', 'o', 'n', '.', 'm', 'a', 'v', 'e', 'n', '.', 'M', 'a', 'v', 'e', 'n', 'M', 'o', 'd', 'u', 'l', 'e', 'S', 'e', 't', 'B', 'u', 'i', 'l', 'd'],
        "hudson.maven.MavenBuild"@ == seq!['h', 'u', 'd', 's', 'o', 'n', '.', 'm', 'a', 'v', 'e', 'n', '.', 'M', 'a', 'v', 'e', 'n', 'B', 'u', 'i', 'l', 'd'],
{
    reveal_strlit("hudson.model.FreeStyleBuild");
    reveal_strlit("org.jenkinsci.plugins.workflow.job.WorkflowRun");
    reveal_strlit("hudson.matrix.MatrixBuild");
    reveal_strlit("hudson.matrix.MatrixRun");
    reveal_strlit("hudson.maven.MavenModuleSetBuild");
    reveal_strlit("hudson.maven.MavenBuild");
    assert("hudson.model.FreeStyleBuild"@ =~= seq!['h', 'u', 'd', 's', 'o', 'n', '.', 'm', 'o', 'd', 'e', 'l', '.', 'F', 'r', 'e', 'e', 'S', 't', 'y', 'l', 'e', 'B', 'u', 'i', 'l', 'd']);
    assert("org.jenkinsci.plugins.workflow.job.WorkflowRun"@ =~= seq!['o', 'r', 'g', '.', 'j', 'e', 'n', 'k', 'i', 'n', 's', 'c', 'i', '.', 'p', 'l', 'u', 'g', 'i', 'n', 's', '.', 'w', 'o', 'r', 'k', 'f', 'l', 'o', 'w', '.', 'j', 'o', 'b', '.', 'W', 'o', 'r', 'k', 'f', 'l', 'o', 'w', 'R', 'u', 'n']);
    assert("hudson.matrix.MatrixBuild"@ =~= seq!['h', 'u', 'd', 's', 'o', 'n', '.', 'm', 'a', 't', 'r', 'i', 'x', '.', 'M', 'a', 't', 'r', 'i', 'x', 'B', 'u', 'i', 'l', 'd']);
    assert("hudson.matrix.MatrixRun"@ =~= seq!['h', 'u', 'd', 's', 'o', 'n', '.', 'm', 'a', 't', 'r', 'i', 'x', '.', 'M', 'a', 't', 'r', 'i', 'x', 'R', 'u', 'n']);
    assert("hudson.maven.MavenModuleSetBuild"@ =~= seq!['h', 'u', 'd', 's', 'o', 'n', '.', 'm', 'a', 'v', 'e', 'n', '.', 'M', 'a', 'v', 'e', 'n', 'M', 'o', 'd', 'u', 'l', 'e', 'S', 'e', 't', 'B', 'u', 'i', 'l', 'd']);
    assert("hudson.maven.MavenBuild"@ =~= seq!['h', 'u', 'd', 's', 'o', 'n', '.', 'm', 'a', 'v', 'e', 'n', '.', 'M', 'a', 'v', 'e', 'n', 'B', 'u', 'i', 'l', 'd']);
}

/// The unique `_class` binding of the entries, when it is a string bound
/// exactly once.
#[verifier::loop_isolation(false)]
fn class_of_fields<'a>(fields: &'a Vec<(String, JsonValue)>) -> (r: Option<&'a String>)
    ensures
        r matches Some(s) ==> has_key(fields@, "_class"@) && at_most_once(fields@, "_class"@)
            && key_value(fields@, "_class"@) == JsonValue::Str(*s),
        r is None ==> !(has_key(fields@, "_class"@) && at_most_once(fields@, "_class"@)
            && key_value(fields@, "_class"@) is Str),
{
    proof {
        lemma_key_literals();
    }
    let mut found: Option<usize> = None;
    let mut i: usize = 0;
    while i < fields.len()
        invariant
            i <= fields.len(),
            found is None ==> forall|t: int| 0 <= t < i ==> fields@[t].0@ != "_class"@,
            found matches Some(j) ==> j < i && fields@[j as int].0@ == "_class"@ && (forall|t: int|
                0 <= t < i && fields@[t].0@ == "_class"@ ==> t == j as int),
        decreases fields.len() - i,
    {
        if str_eq(fields[i].0.as_str(), "_class") {
            match found {
                Some(_) => {
                    proof {
                        let j = choose|j: int| 0 <= j < i && fields@[j].0@ == "_class"@;
                        assert(crate::value::key_at(fields@, "_class"@, j));
                        assert(crate::value::key_at(fields@, "_class"@, i as int));
                    }
                    return None;
                },
                None => {
                    found = Some(i);
                },
            }
        }
        i = i + 1;
    }
    match found {
        Some(j) => {
            proof {
                assert(crate::value::key_at(fields@, "_class"@, j as int));
                assert forall|a: int, b: int|
                    crate::value::key_at(fields@, "_class"@, a) && crate::value::key_at(
                        fields@,
                        "_class"@,
                        b,
                    ) implies a == b by {}
                assert(key_value(fields@, "_class"@) == fields@[j as int].1);
            }
            match &fields[j].1 {
                JsonValue::Str(s) => Some(s),
                _ => None,
            }
        },
        None => {
            proof {
                if has_key(fields@, "_class"@) {
                    let t = choose|t: int| crate::value::key_at(fields@, "_class"@, t);
                    assert(fields@[t].0@ != "_class"@);
                }
            }
            None
        },
    }
}

/// Decode the FreeStyleBuild shape: the common fields plus its own declared fields;
/// fields that neither declares are ignored.
#[verifier::loop_isolation(false)]
#[verifier::rlimit(80)]
fn decode_freestyle(fields: Vec<(String, JsonValue)>) -> (r: Result<Build, DecodeError>)
    ensures
        r is Ok <==> spec_decode_shape("hudson.model.FreeStyleBuild"@, fields@) is Some,
        r matches Ok(b) ==> Some(b@) == spec_decode_shape("hudson.model.FreeStyleBuild"@, fields@),
        r matches Err(e) ==> e is StructuralDecodeError,
{
    proof {
        lemma_key_literals();
        lemma_tag_literals();
    }
    let (common, rest) = match extract_common(fields) {
        Ok(p) => p,
        Err(e) => {
            return Err(e);
        },
    };
    let ghost orig = rest@;
    let mut rest = rest;
    let ghost mut pre: Seq<(String, JsonValue)> = Seq::empty();
    let mut built_on_s: Option<String> = None;
    let mut change_set_s: Option<JsonValue> = None;
    while rest.len() > 0
        invariant
            orig == pre + rest@,
            str_inv(pre, "builtOn"@, built_on_s),
            val_inv(pre, "changeSet"@, change_set_s),
        decreases rest.len(),
    {
        let ghost pref = rest@;
        let kv = rest.remove(0);
        let ghost e = kv;
        let (k, v) = kv;
        proof {
            assert(pre.push(e) + rest@ =~= pre + pref);
            assert(orig.subrange(0, pre.len() as int + 1) =~= pre.push(e));
            lemma_push_keys(pre, e);
            lemma_sub_keys(orig, pre.len() as int + 1);
        }
        if str_eq(k.as_str(), "builtOn") {
            if built_on_s.is_some() {
                return Err(structural_key(k));
            }
            match v {
                JsonValue::Str(s) => {
                    built_on_s = Some(s);
                },
                _ => {
                    return Err(structural_key(k));
                },
            }        } else if str_eq(k.as_str(), "changeSet") {
            if change_set_s.is_some() {
                return Err(structural_key(k));
            }
            change_set_s = Some(v);
        }
        proof {
            pre = pre.push(e);
        }
    }
    proof {
        assert(pre =~= orig);
    }
    let built_on = match built_on_s {
        Some(x) => x,
        None => {
            return Err(structural("builtOn"));
        },
    };
    let change_set = match change_set_s {
        Some(x) => x,
        None => {
            return Err(structural("changeSet"));
        },
    };
    Ok(Build::FreeStyleBuild { common, built_on, change_set })
}

/// Decode the WorkflowRun shape: the common fields plus its own declared fields;
/// fields that neither declares are ignored.
#[verifier::loop_isolation(false)]
#[verifier::rlimit(80)]
fn decode_workflow(fields: Vec<(String, JsonValue)>) -> (r: Result<Build, DecodeError>)
    ensures
        r is Ok <==> spec_decode_shape("org.jenkinsci.plugins.workflow.job.WorkflowRun"@, fields@) is Some,
        r matches Ok(b) ==> Some(b@) == spec_decode_shape("org.jenkinsci.plugins.workflow.job.WorkflowRun"@, fields@),
        r matches Err(e) ==> e is StructuralDecodeError,
{
    proof {
        lemma_key_literals();
        lemma_tag_literals();
    }
    let (common, rest) = match extract_common(fields) {
        Ok(p) => p,
        Err(e) => {
            return Err(e);
        },
    };
    let ghost orig = rest@;
    let mut rest = rest;
    let ghost mut pre: Seq<(String, JsonValue)> = Seq::empty();
    let mut change_sets_s: Option<Vec<JsonValue>> = None;
    let mut previous_build_s: Option<Option<ShortBuild>> = None;
    while rest.len() > 0
        invariant
            orig == pre + rest@,
            arr_inv(pre, "changeSets"@, change_sets_s),
            opt_short_build_inv(pre, "previousBuild"@, previous_build_s),
        decreases rest.len(),
    {
        let ghost pref = rest@;
        let kv = rest.remove(0);
        let ghost e = kv;
        let (k, v) = kv;
        proof {
            assert(pre.push(e) + rest@ =~= pre + pref);
            assert(orig.subrange(0, pre.len() as int + 1) =~= pre.push(e));
            lemma_push_keys(pre, e);
            lemma_sub_keys(orig, pre.len() as int + 1);
        }
        if str_eq(k.as_str(), "changeSets") {
            if change_sets_s.is_some() {
                return Err(structural_key(k));
            }
            match v {
                JsonValue::Arr(a) => {
                    change_sets_s = Some(a);
                },
                _ => {
                    return Err(structural_key(k));
                },
            }        } else if str_eq(k.as_str(), "previousBuild") {
            if previous_build_s.is_some() {
                return Err(structural_key(k));
            }
            match v {
                JsonValue::Null => {
                    previous_build_s = Some(None);
                },
                other => {
                    match decode_short_build(other) {
                        Ok(b) => {
                            previous_build_s = Some(Some(b));
                        },
                        Err(err) => {
                            return Err(err);
                        },
                    }
                },
            }
        }
        proof {
            pre = pre.push(e);
        }
    }
    proof {
        assert(pre =~= orig);
    }
    let change_sets = match change_sets_s {
        Some(x) => x,
        None => {
            return Err(structural("changeSets"));
        },
    };
    let previous_build = match previous_build_s {
        Some(x) => x,
        None => None,
    };
    Ok(Build::WorkflowRun { common, change_sets, previous_build })
}

/// Decode the MatrixBuild shape: the common fields plus its own declared fields;
/// fields that neither declares are ignored.
#[verifier::loop_isolation(false)]
#[verifier::rlimit(80)]
fn decode_matrix_build(fields: Vec<(String, JsonValue)>) -> (r: Result<Build, DecodeError>)
    ensures
        r is Ok <==> spec_decode_shape("hudson.matrix.MatrixBuild"@, fields@) is Some,
        r matches Ok(b) ==> Some(b@) == spec_decode_shape("hudson.matrix.MatrixBuild"@, fields@),
        r matches Err(e) ==> e is StructuralDecodeError,
{
    proof {
        lemma_key_literals();
        lemma_tag_literals();
    }
    let (common, rest) = match extract_common(fields) {
        Ok(p) => p,
        Err(e) => {
            return Err(e);
        },
    };
    let ghost orig = rest@;
    let mut rest = rest;
    let ghost mut pre: Seq<(String, JsonValue)> = Seq::empty();
    let mut change_set_s: Option<JsonValue> = None;
    let mut runs_s: Option<Vec<ShortBuild>> = None;
    while rest.len() > 0
        invariant
            orig == pre + rest@,
            val_inv(pre, "changeSet"@, change_set_s),
            short_build_list_inv(pre, "runs"@, runs_s),
        decreases rest.len(),
    {
        let ghost pref = rest@;
        let kv = rest.remove(0);
        let ghost e = kv;
        let (k, v) = kv;
        proof {
            assert(pre.push(e) + rest@ =~= pre + pref);
            assert(orig.subrange(0, pre.len() as int + 1) =~= pre.push(e));
            lemma_push_keys(pre, e);
            lemma_sub_keys(orig, pre.len() as int + 1);
        }
        if str_eq(k.as_str(), "changeSet") {
            if change_set_s.is_some() {
                return Err(structural_key(k));
            }
            change_set_s = Some(v);        } else if str_eq(k.as_str(), "runs") {
            if runs_s.is_some() {
                return Err(structural_key(k));
            }
            match v {
                JsonValue::Arr(a) => {
                    match decode_short_builds(a) {
                        Ok(bs) => {
                            runs_s = Some(bs);
                        },
                        Err(err) => {
                            return Err(err);
                        },
                    }
                },
                _ => {
                    return Err(structural_key(k));
                },
            }
        }
        proof {
            pre = pre.push(e);
        }
    }
    proof {
        assert(pre =~= orig);
    }
    let change_set = match change_set_s {
        Some(x) => x,
        None => {
            return Err(structural("changeSet"));
        },
    };
    let runs = match runs_s {
        Some(x) => x,
        None => {
            return Err(structural("runs"));
        },
    };
    Ok(Build::MatrixBuild { common, change_set, runs })
}

/// Decode the MatrixRun shape: the common fields plus its own declared fields;
/// fields that neither declares are ignored.
#[verifier::loop_isolation(false)]
#[verifier::rlimit(80)]
fn decode_matrix_run(fields: Vec<(String, JsonValue)>) -> (r: Result<Build, DecodeError>)
    ensures
        r is Ok <==> spec_decode_shape("hudson.matrix.MatrixRun"@, fields@) is Some,
        r matches Ok(b) ==> Some(b@) == spec_decode_shape("hudson.matrix.MatrixRun"@, fields@),
        r matches Err(e) ==> e is StructuralDecodeError,
{
    proof {
        lemma_key_literals();
        lemma_tag_literals();
    }
    let (common, rest) = match extract_common(fields) {
        Ok(p) => p,
        Err(e) => {
            return Err(e);
        },
    };
    let ghost orig = rest@;
    let mut rest = rest;
    let ghost mut pre: Seq<(String, JsonValue)> = Seq::empty();
    let mut change_set_s: Option<JsonValue> = None;
    while rest.len() > 0
        invariant
            orig == pre + rest@,
            val_inv(pre, "changeSet"@, change_set_s),
        decreases rest.len(),
    {
        let ghost pref = rest@;
        let kv = rest.remove(0);
        let ghost e = kv;
        let (k, v) = kv;
        proof {
            assert(pre.push(e) + rest@ =~= pre + pref);
            assert(orig.subrange(0, pre.len() as int + 1) =~= pre.push(e));
            lemma_push_keys(pre, e);
            lemma_sub_keys(orig, pre.len() as int + 1);
        }
        if str_eq(k.as_str(), "changeSet") {
            if change_set_s.is_some() {
                return Err(structural_key(k));
            }
            change_set_s = Some(v);
        }
        proof {
            pre = pre.push(e);
        }
    }
    proof {
        assert(pre =~= orig);
    }
    let change_set = match change_set_s {
        Some(x) => x,
        None => {
            return Err(structural("changeSet"));
        },
    };
    Ok(Build::MatrixRun { common, change_set })
}

/// Decode the MavenModuleSetBuild shape: the common fields plus its own declared fields;
/// fields that neither declares are ignored.
#[verifier::loop_isolation(false)]
#[verifier::rlimit(80)]
fn decode_maven_module_set(fields: Vec<(String, JsonValue)>) -> (r: Result<Build, DecodeError>)
    ensures
        r is Ok <==> spec_decode_shape("hudson.maven.MavenModuleSetBuild"@, fields@) is Some,
        r matches Ok(b) ==> Some(b@) == spec_decode_shape("hudson.maven.MavenModuleSetBuild"@, fields@),
        r matches Err(e) ==> e is StructuralDecodeError,
{
    proof {
        lemma_key_literals();
        lemma_tag_literals();
    }
    let (common, rest) = match extract_common(fields) {
        Ok(p) => p,
        Err(e) => {
            return Err(e);
        },
    };
    let ghost orig = rest@;
    let mut rest = rest;
    let ghost mut pre: Seq<(String, JsonValue)> = Seq::empty();
    let mut change_set_s: Option<JsonValue> = None;
    let mut maven_version_used_s: Option<String> = None;
    let mut built_on_s: Option<String> = None;
    while rest.len() > 0
        invariant
            orig == pre + rest@,
            val_inv(pre, "changeSet"@, change_set_s),
            str_inv(pre, "mavenVersionUsed"@, maven_version_used_s),
            str_inv(pre, "builtOn"@, built_on_s),
        decreases rest.len(),
    {
        let ghost pref = rest@;
        let kv = rest.remove(0);
        let ghost e = kv;
        let (k, v) = kv;
        proof {
            assert(pre.push(e) + rest@ =~= pre + pref);
            assert(orig.subrange(0, pre.len() as int + 1) =~= pre.push(e));
            lemma_push_keys(pre, e);
            lemma_sub_keys(orig, pre.len() as int + 1);
        }
        if str_eq(k.as_str(), "changeSet") {
            if change_set_s.is_some() {
                return Err(structural_key(k));
            }
            change_set_s = Some(v);        } else if str_eq(k.as_str(), "mavenVersionUsed") {
            if maven_version_used_s.is_some() {
                return Err(structural_key(k));
            }
            match v {
                JsonValue::Str(s) => {
                    maven_version_used_s = Some(s);
                },
                _ => {
                    return Err(structural_key(k));
                },
            }        } else if str_eq(k.as_str(), "builtOn") {
            if built_on_s.is_some() {
                return Err(structural_key(k));
            }
            match v {
                JsonValue::Str(s) => {
                    built_on_s = Some(s);
                },
                _ => {
                    return Err(structural_key(k));
                },
            }
        }
        proof {
            pre = pre.push(e);
        }
    }
    proof {
        assert(pre =~= orig);
    }
    let change_set = match change_set_s {
        Some(x) => x,
        None => {
            return Err(structural("changeSet"));
        },
    };
    let maven_version_used = match maven_version_used_s {
        Some(x) => x,
        None => {
            return Err(structural("mavenVersionUsed"));
        },
    };
    let built_on = match built_on_s {
        Some(x) => x,
        None => {
            return Err(structural("builtOn"));
        },
    };
    Ok(Build::MavenModuleSetBuild { common, change_set, maven_version_used, built_on })
}

/// Decode the MavenBuild shape: the common fields plus its own declared fields;
/// fields that neither declares are ignored.
#[verifier::loop_isolation(false)]
#[verifier::rlimit(80)]
fn decode_maven_build(fields: Vec<(String, JsonValue)>) -> (r: Result<Build, DecodeError>)
    ensures
        r is Ok <==> spec_decode_shape("hudson.maven.MavenBuild"@, fields@) is Some,
        r matches Ok(b) ==> Some(b@) == spec_decode_shape("hudson.maven.MavenBuild"@, fields@),
        r matches Err(e) ==> e is StructuralDecodeError,
{
    proof {
        lemma_key_literals();
        lemma_tag_literals();
    }
    let (common, rest) = match extract_common(fields) {
        Ok(p) => p,
        Err(e) => {
            return Err(e);
        },
    };
    let ghost orig = rest@;
    let mut rest = rest;
    let ghost mut pre: Seq<(String, JsonValue)> = Seq::empty();
    let mut change_set_s: Option<JsonValue> = None;
    let mut built_on_s: Option<String> = None;
    let mut maven_artifacts_s: Option<JsonValue> = None;
    while rest.len() > 0
        invariant
            orig == pre + rest@,
            val_inv(pre, "changeSet"@, change_set_s),
            str_inv(pre, "builtOn"@, built_on_s),
            val_inv(pre, "mavenArtifacts"@, maven_artifacts_s),
        decreases rest.len(),
    {
        let ghost pref = rest@;
        let kv = rest.remove(0);
        let ghost e = kv;
        let (k, v) = kv;
        proof {
            assert(pre.push(e) + rest@ =~= pre + pref);
            assert(orig.subrange(0, pre.len() as int + 1) =~= pre.push(e));
            lemma_push_keys(pre, e);
            lemma_sub_keys(orig, pre.len() as int + 1);
        }
        if str_eq(k.as_str(), "changeSet") {
            if change_set_s.is_some() {
                return Err(structural_key(k));
            }
            change_set_s = Some(v);        } else if str_eq(k.as_str(), "builtOn") {
            if built_on_s.is_some() {
                return Err(structural_key(k));
            }
            match v {
                JsonValue::Str(s) => {
                    built_on_s = Some(s);
                },
                _ => {
                    return Err(structural_key(k));
                },
            }        } else if str_eq(k.as_str(), "mavenArtifacts") {
            if maven_artifacts_s.is_some() {
                return Err(structural_key(k));
            }
            maven_artifacts_s = Some(v);
        }
        proof {
            pre = pre.push(e);
        }
    }
    proof {
        assert(pre =~= orig);
    }
    let change_set = match change_set_s {
        Some(x) => x,
        None => {
            return Err(structural("changeSet"));
        },
    };
    let built_on = match built_on_s {
        Some(x) => x,
        None => {
            return Err(structural("builtOn"));
        },
    };
    let maven_artifacts = match maven_artifacts_s {
        Some(x) => x,
        None => {
            return Err(structural("mavenArtifacts"));
        },
    };
    Ok(Build::MavenBuild { common, change_set, built_on, maven_artifacts })
}


/// Decode a document under the closed strategy: pick the shape its
/// discriminant names, by exact string equality in declaration order, or
/// fall back to `Unknown`, which keeps the payload verbatim, when the
/// discriminant matches no known shape or is missing. Fails only when a
/// recognized shape's declared field is ill-formed.
pub fn decode_build(doc: JsonValue) -> (r: Result<Build, DecodeError>)
    ensures
        r is Ok <==> spec_decode_closed(doc) is Some,
        r matches Ok(b) ==> Some(b@) == spec_decode_closed(doc),
        r matches Err(e) ==> e is StructuralDecodeError,
{
    proof {
        lemma_tag_literals();
    }
    match doc {
        JsonValue::Obj(fields) => {
            let class_c: Option<String> = match class_of_fields(&fields) {
                Some(s) => Some(s.clone()),
                None => None,
            };
            match class_c {
                Some(c) => {
                    if str_eq(c.as_str(), "hudson.model.FreeStyleBuild") {
                        decode_freestyle(fields)
                    } else if str_eq(c.as_str(), "org.jenkinsci.plugins.workflow.job.WorkflowRun") {
                        decode_workflow(fields)
                    } else if str_eq(c.as_str(), "hudson.matrix.MatrixBuild") {
                        decode_matrix_build(fields)
                    } else if str_eq(c.as_str(), "hudson.matrix.MatrixRun") {
                        decode_matrix_run(fields)
                    } else if str_eq(c.as_str(), "hudson.maven.MavenModuleSetBuild") {
                        decode_maven_module_set(fields)
                    } else if str_eq(c.as_str(), "hudson.maven.MavenBuild") {
                        decode_maven_build(fields)
                    } else {
                        Ok(Build::Unknown { class: Some(c), payload: JsonValue::Obj(fields) })
                    }
                },
                None => Ok(Build::Unknown { class: None, payload: JsonValue::Obj(fields) }),
            }
        },
        other => Ok(Build::Unknown { class: None, payload: other }),
    }
}

/// The common fields carried by a decoded build, absent on the fallback
/// variant.
pub open spec fn common_of(b: BuildV) -> Option<BuildCommonV> {
    match b {
        BuildV::FreeStyleBuild { common, .. } => Some(common),
        BuildV::WorkflowRun { common, .. } => Some(common),
        BuildV::MatrixBuild { common, .. } => Some(common),
        BuildV::MatrixRun { common, .. } => Some(common),
        BuildV::MavenModuleSetBuild { common, .. } => Some(common),
        BuildV::MavenBuild { common, .. } => Some(common),
        BuildV::Unknown { .. } => None,
    }
}

/// The name of the variant a decoded build carries, as diagnostics spell it.
pub open spec fn spec_variant_name(b: BuildV) -> Seq<char> {
    match b {
        BuildV::FreeStyleBuild { .. } => "FreeStyleBuild"@,
        BuildV::WorkflowRun { .. } => "WorkflowRun"@,
        BuildV::MatrixBuild { .. } => "MatrixBuild"@,
        BuildV::MatrixRun { .. } => "MatrixRun"@,
        BuildV::MavenModuleSetBuild { .. } => "MavenModuleSetBuild"@,
        BuildV::MavenBuild { .. } => "MavenBuild"@,
        BuildV::Unknown { .. } => "Unknown"@,
    }
}

impl Build {
    /// The name of the variant actually present.
    pub fn variant_name(&self) -> (r: &str)
        ensures
            r@ == spec_variant_name(self@),
    {
        match self {
            Build::FreeStyleBuild { .. } => "FreeStyleBuild",
            Build::WorkflowRun { .. } => "WorkflowRun",
            Build::MatrixBuild { .. } => "MatrixBuild",
            Build::MatrixRun { .. } => "MatrixRun",
            Build::MavenModuleSetBuild { .. } => "MavenModuleSetBuild",
            Build::MavenBuild { .. } => "MavenBuild",
            Build::Unknown { .. } => "Unknown",
        }
    }

    /// The typed failure for reading `field` of a value that does not carry
    /// it: names the field asked for and the variant actually present.
    fn invalid_object(&self, field: &str) -> (r: DecodeError)
        ensures
            r matches DecodeError::InvalidObjectType { field: f, variant: v } && f@ == field@ && v@
                == spec_variant_name(self@),
    {
        DecodeError::InvalidObjectType {
            field: field.to_owned(),
            variant: self.variant_name().to_owned(),
        }
    }

    /// The common fields of any typed shape, by reference.
    fn common_ref(&self) -> (r: Option<&BuildCommon>)
        ensures
            match common_of(self@) {
                Some(c) => r matches Some(bc) && bc@ == c,
                None => r is None,
            },
    {
        match self {
            Build::FreeStyleBuild { common, .. } => Some(common),
            Build::WorkflowRun { common, .. } => Some(common),
            Build::MatrixBuild { common, .. } => Some(common),
            Build::MatrixRun { common, .. } => Some(common),
            Build::MavenModuleSetBuild { common, .. } => Some(common),
            Build::MavenBuild { common, .. } => Some(common),
            Build::Unknown { .. } => None,
        }
    }

    /// Get the url of a build; on the fallback variant, the typed failure
    /// naming the field and the variant.
    pub fn url(&self) -> (r: Result<&str, DecodeError>)
        ensures
            common_of(self@) matches Some(c) ==> (r matches Ok(u) && u@ == c.url@),
            common_of(self@) is None <==> r is Err,
            r matches Err(e) ==> (e matches DecodeError::InvalidObjectType { field, variant }
                && field@ == "url"@ && variant@ == "Unknown"@),
    {
        match self.common_ref() {
            Some(common) => Ok(common.url.as_str()),
            None => Err(self.invalid_object("url")),
        }
    }

    /// Get the timestamp of a build; on the fallback variant, the typed
    /// failure naming the field and the variant.
    pub fn timestamp(&self) -> (r: Result<u64, DecodeError>)
        ensures
            common_of(self@) matches Some(c) ==> r == Ok::<u64, DecodeError>(c.timestamp),
            common_of(self@) is None <==> r is Err,
            r matches Err(e) ==> (e matches DecodeError::InvalidObjectType { field, variant }
                && field@ == "timestamp"@ && variant@ == "Unknown"@),
    {
        match self.common_ref() {
            Some(common) => Ok(common.timestamp),
            None => Err(self.invalid_object("timestamp")),
        }
    }

    /// Get the result of a build; on the fallback variant, the typed failure
    /// naming the field and the variant.
    pub fn result(&self) -> (r: Result<BuildStatus, DecodeError>)
        ensures
            common_of(self@) matches Some(c) ==> r == Ok::<BuildStatus, DecodeError>(c.result),
            common_of(self@) is None <==> r is Err,
            r matches Err(e) ==> (e matches DecodeError::InvalidObjectType { field, variant }
                && field@ == "result"@ && variant@ == "Unknown"@),
    {
        match self.common_ref() {
            Some(common) => Ok(common.result),
            None => Err(self.invalid_object("result")),
        }
    }

    /// Get the number of a build; on the fallback variant, the typed failure
    /// naming the field and the variant.
    pub fn number(&self) -> (r: Result<u32, DecodeError>)
        ensures
            common_of(self@) matches Some(c) ==> r == Ok::<u32, DecodeError>(c.number),
            common_of(self@) is None <==> r is Err,
            r matches Err(e) ==> (e matches DecodeError::InvalidObjectType { field, variant }
                && field@ == "number"@ && variant@ == "Unknown"@),
    {
        match self.common_ref() {
            Some(common) => Ok(common.number),
            None => Err(self.invalid_object("number")),
        }
    }

    /// Get the duration of a build; on the fallback variant, the typed
    /// failure naming the field and the variant.
    pub fn duration(&self) -> (r: Result<u32, DecodeError>)
        ensures
            common_of(self@) matches Some(c) ==> r == Ok::<u32, DecodeError>(c.duration),
            common_of(self@) is None <==> r is Err,
            r matches Err(e) ==> (e matches DecodeError::InvalidObjectType { field, variant }
                && field@ == "duration"@ && variant@ == "Unknown"@),
    {
        match self.common_ref() {
            Some(common) => Ok(common.duration),
            None => Err(self.invalid_object("duration")),
        }
    }

    /// Get the estimated duration of a build; on the fallback variant, the typed
    /// failure naming the field and the variant.
    pub fn estimated_duration(&self) -> (r: Result<u32, DecodeError>)
        ensures
            common_of(self@) matches Some(c) ==> r == Ok::<u32, DecodeError>(c.estimated_duration),
            common_of(self@) is None <==> r is Err,
            r matches Err(e) ==> (e matches DecodeError::InvalidObjectType { field, variant }
                && field@ == "estimatedDuration"@ && variant@ == "Unknown"@),
    {
        match self.common_ref() {
            Some(common) => Ok(common.estimated_duration),
            None => Err(self.invalid_object("estimatedDuration")),
        }
    }

    /// Get the keep-log flag of a build; on the fallback variant, the typed
    /// failure naming the field and the variant.
    pub fn keep_log(&self) -> (r: Result<bool, DecodeError>)
        ensures
            common_of(self@) matches Some(c) ==> r == Ok::<bool, DecodeError>(c.keep_log),
            common_of(self@) is None <==> r is Err,
            r matches Err(e) ==> (e matches DecodeError::InvalidObjectType { field, variant }
                && field@ == "keepLog"@ && variant@ == "Unknown"@),
    {
        match self.common_ref() {
            Some(common) => Ok(common.keep_log),
            None => Err(self.invalid_object("keepLog")),
        }
    }

    /// Get the display name of a build; on the fallback variant, the typed
    /// failure naming the field and the variant.
    pub fn display_name(&self) -> (r: Result<&str, DecodeError>)
        ensures
            common_of(self@) matches Some(c) ==> (r matches Ok(u) && u@ == c.display_name@),
            common_of(self@) is None <==> r is Err,
            r matches Err(e) ==> (e matches DecodeError::InvalidObjectType { field, variant }
                && field@ == "displayName"@ && variant@ == "Unknown"@),
    {
        match self.common_ref() {
            Some(common) => Ok(common.display_name.as_str()),
            None => Err(self.invalid_object("displayName")),
        }
    }

    /// Get the full display name of a build; on the fallback variant, the typed
    /// failure naming the field and the variant.
    pub fn full_display_name(&self) -> (r: Result<&str, DecodeError>)
        ensures
            common_of(self@) matches Some(c) ==> (r matches Ok(u) && u@ == c.full_display_name@),
            common_of(self@) is None <==> r is Err,
            r matches Err(e) ==> (e matches DecodeError::InvalidObjectType { field, variant }
                && field@ == "fullDisplayName"@ && variant@ == "Unknown"@),
    {
        match self.common_ref() {
            Some(common) => Ok(common.full_display_name.as_str()),
            None => Err(self.invalid_object("fullDisplayName")),
        }
    }

    /// Get the description of a build; on the fallback variant, the typed
    /// failure naming the field and the variant.
    pub fn description(&self) -> (r: Result<&Option<String>, DecodeError>)
        ensures
            common_of(self@) matches Some(c) ==> (r matches Ok(d) && *d == c.description),
            common_of(self@) is None <==> r is Err,
            r matches Err(e) ==> (e matches DecodeError::InvalidObjectType { field, variant }
                && field@ == "description"@ && variant@ == "Unknown"@),
    {
        match self.common_ref() {
            Some(common) => Ok(&common.description),
            None => Err(self.invalid_object("description")),
        }
    }

    /// Get the building flag of a build; on the fallback variant, the typed
    /// failure naming the field and the variant.
    pub fn building(&self) -> (r: Result<bool, DecodeError>)
        ensures
            common_of(self@) matches Some(c) ==> r == Ok::<bool, DecodeError>(c.building),
            common_of(self@) is None <==> r is Err,
            r matches Err(e) ==> (e matches DecodeError::InvalidObjectType { field, variant }
                && field@ == "building"@ && variant@ == "Unknown"@),
    {
        match self.common_ref() {
            Some(common) => Ok(common.building),
            None => Err(self.invalid_object("building")),
        }
    }

    /// Get the string id of a build; on the fallback variant, the typed
    /// failure naming the field and the variant.
    pub fn id(&self) -> (r: Result<&str, DecodeError>)
        ensures
            common_of(self@) matches Some(c) ==> (r matches Ok(u) && u@ == c.id@),
            common_of(self@) is None <==> r is Err,
            r matches Err(e) ==> (e matches DecodeError::InvalidObjectType { field, variant }
                && field@ == "id"@ && variant@ == "Unknown"@),
    {
        match self.common_ref() {
            Some(common) => Ok(common.id.as_str()),
            None => Err(self.invalid_object("id")),
        }
    }

    /// Get the queue id of a build; on the fallback variant, the typed
    /// failure naming the field and the variant.
    pub fn queue_id(&self) -> (r: Result<i32, DecodeError>)
        ensures
            common_of(self@) matches Some(c) ==> r == Ok::<i32, DecodeError>(c.queue_id),
            common_of(self@) is None <==> r is Err,
            r matches Err(e) ==> (e matches DecodeError::InvalidObjectType { field, variant }
                && field@ == "queueId"@ && variant@ == "Unknown"@),
    {
        match self.common_ref() {
            Some(common) => Ok(common.queue_id),
            None => Err(self.invalid_object("queueId")),
        }
    }

    /// Get the actions of a build; on the fallback variant, the typed
    /// failure naming the field and the variant.
    pub fn actions(&self) -> (r: Result<&Vec<JsonValue>, DecodeError>)
        ensures
            common_of(self@) matches Some(c) ==> (r matches Ok(xs) && xs@ == c.actions),
            common_of(self@) is None <==> r is Err,
            r matches Err(e) ==> (e matches DecodeError::InvalidObjectType { field, variant }
                && field@ == "actions"@ && variant@ == "Unknown"@),
    {
        match self.common_ref() {
            Some(common) => Ok(&common.actions),
            None => Err(self.invalid_object("actions")),
        }
    }

    /// Get the artifacts of a build; on the fallback variant, the typed
    /// failure naming the field and the variant.
    pub fn artifacts(&self) -> (r: Result<&Vec<Artifact>, DecodeError>)
        ensures
            common_of(self@) matches Some(c) ==> (r matches Ok(xs) && xs@ == c.artifacts),
            common_of(self@) is None <==> r is Err,
            r matches Err(e) ==> (e matches DecodeError::InvalidObjectType { field, variant }
                && field@ == "artifacts"@ && variant@ == "Unknown"@),
    {
        match self.common_ref() {
            Some(common) => Ok(&common.artifacts),
            None => Err(self.invalid_object("artifacts")),
        }
    }
}

/// Law: a document whose discriminant matches a known shape's tag decodes,
/// when it decodes at all, to the shape that tag names — never to the
/// fallback variant.
pub proof fn lemma_known_tag_never_fallback(doc: JsonValue)
    requires
        class_tag_of(doc) matches Some(t) && known_tag(t@),
    ensures
        spec_decode_closed(doc) matches Some(b) ==> !(b is Unknown),
        spec_decode_closed(doc) matches Some(b) ==> (class_tag_of(doc)->Some_0@
            == "hudson.model.FreeStyleBuild"@ ==> b is FreeStyleBuild),
        spec_decode_closed(doc) matches Some(b) ==> (class_tag_of(doc)->Some_0@
            == "org.jenkinsci.plugins.workflow.job.WorkflowRun"@ ==> b is WorkflowRun),
        spec_decode_closed(doc) matches Some(b) ==> (class_tag_of(doc)->Some_0@
            == "hudson.matrix.MatrixBuild"@ ==> b is MatrixBuild),
        spec_decode_closed(doc) matches Some(b) ==> (class_tag_of(doc)->Some_0@
            == "hudson.matrix.MatrixRun"@ ==> b is MatrixRun),
        spec_decode_closed(doc) matches Some(b) ==> (class_tag_of(doc)->Some_0@
            == "hudson.maven.MavenModuleSetBuild"@ ==> b is MavenModuleSetBuild),
        spec_decode_closed(doc) matches Some(b) ==> (class_tag_of(doc)->Some_0@
            == "hudson.maven.MavenBuild"@ ==> b is MavenBuild),
{
    lemma_tag_literals();
}

/// Law: a document whose discriminant matches no known shape's tag — a
/// missing discriminant included — decodes to the fallback variant holding
/// the document verbatim: the unmatched tag alone never makes the closed
/// decode fail.
pub proof fn lemma_unknown_tag_fallback(doc: JsonValue)
    requires
        !(class_tag_of(doc) matches Some(t) && known_tag(t@)),
    ensures
        spec_decode_closed(doc) == Some(
            BuildV::Unknown { class: class_tag_of(doc), payload: doc },
        ),
{
}

/// Law: the closed decode is a function of the document alone, so decoding
/// equal payloads yields equal results.
pub proof fn lemma_decode_closed_deterministic(d1: JsonValue, d2: JsonValue)
    requires
        d1 == d2,
    ensures
        spec_decode_closed(d1) == spec_decode_closed(d2),
{
}

} // verus!
