//! The untyped document tree that both decoding strategies consume, and the
//! specification vocabulary for reading keyed fields out of an object.
use vstd::prelude::*;

verus! {

/// An in-memory JSON-like document. An object keeps its entries in source
/// order, so the overflow container of the open strategy can preserve the
/// payload verbatim.
#[derive(Debug, PartialEq)]
pub enum JsonValue {
    Null,
    Bool(bool),
    Int(i64),
    /// A JSON number that no signed 64-bit integer holds — a fraction, an
    /// exponent, or a wider integer — kept by its literal spelling so that
    /// undeclared fields carrying one survive a decode verbatim.
    BigNum(String),
    Str(String),
    Arr(Vec<JsonValue>),
    Obj(Vec<(String, JsonValue)>),
}

/// Entry `i` of the object binds key `k`.
pub open spec fn key_at(f: Seq<(String, JsonValue)>, k: Seq<char>, i: int) -> bool {
    0 <= i < f.len() && f[i].0@ == k
}

/// Some entry binds key `k`.
pub open spec fn has_key(f: Seq<(String, JsonValue)>, k: Seq<char>) -> bool {
    exists|i: int| key_at(f, k, i)
}

/// At most one entry binds key `k`.
pub open spec fn at_most_once(f: Seq<(String, JsonValue)>, k: Seq<char>) -> bool {
    forall|i: int, j: int| key_at(f, k, i) && key_at(f, k, j) ==> i == j
}

/// The value bound to key `k`; meaningful when `k` is bound exactly once.
pub open spec fn key_value(f: Seq<(String, JsonValue)>, k: Seq<char>) -> JsonValue {
    f[choose|i: int| key_at(f, k, i)].1
}

/// The set of keys bound by the object, as character sequences.
pub open spec fn key_set(f: Seq<(String, JsonValue)>) -> Set<Seq<char>> {
    Set::new(|k: Seq<char>| has_key(f, k))
}

/// How appending one entry changes what each key is bound to.
pub proof fn lemma_push_keys(f: Seq<(String, JsonValue)>, e: (String, JsonValue))
    ensures
        forall|k: Seq<char>| e.0@ != k ==> (#[trigger] has_key(f.push(e), k) == has_key(f, k)),
        forall|k: Seq<char>| e.0@ != k ==> (#[trigger] at_most_once(f.push(e), k) == at_most_once(
            f,
            k,
        )),
        forall|k: Seq<char>|
            e.0@ != k && has_key(f, k) && at_most_once(f, k) ==> #[trigger] key_value(f.push(e), k)
                == key_value(f, k),
        has_key(f.push(e), e.0@),
        !has_key(f, e.0@) ==> at_most_once(f.push(e), e.0@) && key_value(f.push(e), e.0@) == e.1,
        has_key(f, e.0@) ==> !at_most_once(f.push(e), e.0@),
{
    let g = f.push(e);
    let n = f.len() as int;
    assert(key_at(g, e.0@, n));
    assert forall|k: Seq<char>| e.0@ != k implies (#[trigger] has_key(g, k) == has_key(f, k)) by {
        if has_key(g, k) {
            let i = choose|i: int| key_at(g, k, i);
            assert(key_at(f, k, i));
        }
        if has_key(f, k) {
            let i = choose|i: int| key_at(f, k, i);
            assert(key_at(g, k, i));
        }
    }
    assert forall|k: Seq<char>| e.0@ != k implies (#[trigger] at_most_once(g, k) == at_most_once(
        f,
        k,
    )) by {
        if at_most_once(f, k) {
            assert forall|i: int, j: int| key_at(g, k, i) && key_at(g, k, j) implies i == j by {
                assert(key_at(f, k, i));
                assert(key_at(f, k, j));
            }
        }
        if at_most_once(g, k) {
            assert forall|i: int, j: int| key_at(f, k, i) && key_at(f, k, j) implies i == j by {
                assert(key_at(g, k, i));
                assert(key_at(g, k, j));
            }
        }
    }
    assert forall|k: Seq<char>|
        e.0@ != k && has_key(f, k) && at_most_once(f, k) implies #[trigger] key_value(g, k)
        == key_value(f, k) by {
        let i = choose|i: int| key_at(f, k, i);
        assert(key_at(g, k, i));
        let i2 = choose|i2: int| key_at(g, k, i2);
        assert(key_at(f, k, i2));
        assert(i == i2);
    }
    if !has_key(f, e.0@) {
        assert forall|i: int, j: int| key_at(g, e.0@, i) && key_at(g, e.0@, j) implies i == j by {
            if i < n {
                assert(key_at(f, e.0@, i));
            }
            if j < n {
                assert(key_at(f, e.0@, j));
            }
        }
        let i = choose|i: int| key_at(g, e.0@, i);
        if i < n {
            assert(key_at(f, e.0@, i));
        }
        assert(key_value(g, e.0@) == e.1);
    }
    if has_key(f, e.0@) {
        let i = choose|i: int| key_at(f, e.0@, i);
        assert(key_at(g, e.0@, i));
        assert(!at_most_once(g, e.0@));
    }
}

/// Facts about a key carry from a prefix of the entries to the whole.
pub proof fn lemma_sub_keys(f: Seq<(String, JsonValue)>, n: int)
    requires
        0 <= n <= f.len(),
    ensures
        forall|k: Seq<char>| #[trigger] has_key(f.subrange(0, n), k) ==> has_key(f, k),
        forall|k: Seq<char>| at_most_once(f, k) ==> #[trigger] at_most_once(f.subrange(0, n), k),
        forall|k: Seq<char>|
            has_key(f.subrange(0, n), k) && #[trigger] at_most_once(f, k) ==> key_value(f, k)
                == key_value(f.subrange(0, n), k),
{
    let p = f.subrange(0, n);
    assert forall|k: Seq<char>| #[trigger] has_key(p, k) implies has_key(f, k) by {
        let i = choose|i: int| key_at(p, k, i);
        assert(key_at(f, k, i));
    }
    assert forall|k: Seq<char>| at_most_once(f, k) implies #[trigger] at_most_once(p, k) by {
        assert forall|i: int, j: int| key_at(p, k, i) && key_at(p, k, j) implies i == j by {
            assert(key_at(f, k, i));
            assert(key_at(f, k, j));
        }
    }
    assert forall|k: Seq<char>|
        has_key(p, k) && #[trigger] at_most_once(f, k) implies key_value(f, k) == key_value(
        p,
        k,
    ) by {
        let i = choose|i: int| key_at(p, k, i);
        assert(key_at(f, k, i));
        let i2 = choose|i2: int| key_at(f, k, i2);
        assert(key_at(p, k, i));
        assert(i == i2);
    }
}

/// The string bound to key `k`: `Some` exactly when the key is bound and its
/// value is a string.
pub open spec fn str_field(f: Seq<(String, JsonValue)>, k: Seq<char>) -> Option<String> {
    if has_key(f, k) {
        match key_value(f, k) {
            JsonValue::Str(s) => Some(s),
            _ => None,
        }
    } else {
        None
    }
}

/// The unsigned 32-bit integer bound to key `k`.
pub open spec fn u32_field(f: Seq<(String, JsonValue)>, k: Seq<char>) -> Option<u32> {
    if has_key(f, k) {
        match key_value(f, k) {
            JsonValue::Int(n) => if 0 <= n <= u32::MAX {
                Some(n as u32)
            } else {
                None
            },
            _ => None,
        }
    } else {
        None
    }
}

/// The unsigned 64-bit integer bound to key `k`.
pub open spec fn u64_field(f: Seq<(String, JsonValue)>, k: Seq<char>) -> Option<u64> {
    if has_key(f, k) {
        match key_value(f, k) {
            JsonValue::Int(n) => if 0 <= n {
                Some(n as u64)
            } else {
                None
            },
            _ => None,
        }
    } else {
        None
    }
}

/// The signed 32-bit integer bound to key `k`.
pub open spec fn i32_field(f: Seq<(String, JsonValue)>, k: Seq<char>) -> Option<i32> {
    if has_key(f, k) {
        match key_value(f, k) {
            JsonValue::Int(n) => if i32::MIN <= n <= i32::MAX {
                Some(n as i32)
            } else {
                None
            },
            _ => None,
        }
    } else {
        None
    }
}

/// The boolean bound to key `k`.
pub open spec fn bool_field(f: Seq<(String, JsonValue)>, k: Seq<char>) -> Option<bool> {
    if has_key(f, k) {
        match key_value(f, k) {
            JsonValue::Bool(b) => Some(b),
            _ => None,
        }
    } else {
        None
    }
}

/// An optional string field: an absent key and an explicit null both read as
/// `Some(None)`; a bound string reads as `Some(Some(s))`; any other shape is
/// a structural fault (`None`).
pub open spec fn opt_str_field(f: Seq<(String, JsonValue)>, k: Seq<char>) -> Option<
    Option<String>,
> {
    if has_key(f, k) {
        match key_value(f, k) {
            JsonValue::Str(s) => Some(Some(s)),
            JsonValue::Null => Some(None),
            _ => None,
        }
    } else {
        Some(None)
    }
}

/// The array bound to key `k`.
pub open spec fn arr_field(f: Seq<(String, JsonValue)>, k: Seq<char>) -> Option<Vec<JsonValue>> {
    if has_key(f, k) {
        match key_value(f, k) {
            JsonValue::Arr(a) => Some(a),
            _ => None,
        }
    } else {
        None
    }
}

/// The value bound to key `k`, of whatever shape.
pub open spec fn val_field(f: Seq<(String, JsonValue)>, k: Seq<char>) -> Option<JsonValue> {
    if has_key(f, k) {
        Some(key_value(f, k))
    } else {
        None
    }
}

/// What a decoding pass knows of a required string slot after reading a
/// prefix `f` of the entries: the key was seen at most once, with a string
/// value, and the slot holds it exactly when it was seen.
pub open spec fn str_inv(f: Seq<(String, JsonValue)>, k: Seq<char>, slot: Option<String>) -> bool {
    &&& at_most_once(f, k)
    &&& slot == str_field(f, k)
    &&& (has_key(f, k) ==> str_field(f, k) is Some)
}

/// As `str_inv`, for an unsigned 32-bit slot.
pub open spec fn u32_inv(f: Seq<(String, JsonValue)>, k: Seq<char>, slot: Option<u32>) -> bool {
    &&& at_most_once(f, k)
    &&& slot == u32_field(f, k)
    &&& (has_key(f, k) ==> u32_field(f, k) is Some)
}

/// As `str_inv`, for an unsigned 64-bit slot.
pub open spec fn u64_inv(f: Seq<(String, JsonValue)>, k: Seq<char>, slot: Option<u64>) -> bool {
    &&& at_most_once(f, k)
    &&& slot == u64_field(f, k)
    &&& (has_key(f, k) ==> u64_field(f, k) is Some)
}

/// As `str_inv`, for a signed 32-bit slot.
pub open spec fn i32_inv(f: Seq<(String, JsonValue)>, k: Seq<char>, slot: Option<i32>) -> bool {
    &&& at_most_once(f, k)
    &&& slot == i32_field(f, k)
    &&& (has_key(f, k) ==> i32_field(f, k) is Some)
}

/// As `str_inv`, for a boolean slot.
pub open spec fn bool_inv(f: Seq<(String, JsonValue)>, k: Seq<char>, slot: Option<bool>) -> bool {
    &&& at_most_once(f, k)
    &&& slot == bool_field(f, k)
    &&& (has_key(f, k) ==> bool_field(f, k) is Some)
}

/// As `str_inv`, for an optional string slot; the outer option records
/// whether the key was seen at all.
pub open spec fn opt_str_inv(
    f: Seq<(String, JsonValue)>,
    k: Seq<char>,
    slot: Option<Option<String>>,
) -> bool {
    &&& at_most_once(f, k)
    &&& (has_key(f, k) ==> opt_str_field(f, k) is Some && slot == Some(
        opt_str_field(f, k)->Some_0,
    ))
    &&& (!has_key(f, k) ==> slot is None)
}

/// As `str_inv`, for a slot that takes a value of any shape.
pub open spec fn val_inv(
    f: Seq<(String, JsonValue)>,
    k: Seq<char>,
    slot: Option<JsonValue>,
) -> bool {
    &&& at_most_once(f, k)
    &&& slot == val_field(f, k)
}

/// As `str_inv`, for an array slot.
pub open spec fn arr_inv(
    f: Seq<(String, JsonValue)>,
    k: Seq<char>,
    slot: Option<Vec<JsonValue>>,
) -> bool {
    &&& at_most_once(f, k)
    &&& slot == arr_field(f, k)
    &&& (has_key(f, k) ==> arr_field(f, k) is Some)
}

/// Pins the view of every field-name literal the decoders use, so that
/// equalities and inequalities between keys are decidable wherever needed.
pub proof fn lemma_key_literals()
    ensures
        "url"@ == seq!['u', 'r', 'l'],
        "number"@ == seq!['n', 'u', 'm', 'b', 'e', 'r'],
        "duration"@ == seq!['d', 'u', 'r', 'a', 't', 'i', 'o', 'n'],
        "estimatedDuration"@ == seq!['e', 's', 't', 'i', 'm', 'a', 't', 'e', 'd', 'D', 'u', 'r', 'a', 't', 'i', 'o', 'n'],
        "timestamp"@ == seq!['t', 'i', 'm', 'e', 's', 't', 'a', 'm', 'p'],
        "keepLog"@ == seq!['k', 'e', 'e', 'p', 'L', 'o', 'g'],
        "result"@ == seq!['r', 'e', 's', 'u', 'l', 't'],
        "displayName"@ == seq!['d', 'i', 's', 'p', 'l', 'a', 'y', 'N', 'a', 'm', 'e'],
        "fullDisplayName"@ == seq!['f', 'u', 'l', 'l', 'D', 'i', 's', 'p', 'l', 'a', 'y', 'N', 'a', 'm', 'e'],
        "description"@ == seq!['d', 'e', 's', 'c', 'r', 'i', 'p', 't', 'i', 'o', 'n'],
        "building"@ == seq!['b', 'u', 'i', 'l', 'd', 'i', 'n', 'g'],
        "id"@ == seq!['i', 'd'],
        "queueId"@ == seq!['q', 'u', 'e', 'u', 'e', 'I', 'd'],
        "actions"@ == seq!['a', 'c', 't', 'i', 'o', 'n', 's'],
        "artifacts"@ == seq!['a', 'r', 't', 'i', 'f', 'a', 'c', 't', 's'],
        "_class"@ == seq!['_', 'c', 'l', 'a', 's', 's'],
        "builtOn"@ == seq!['b', 'u', 'i', 'l', 't', 'O', 'n'],
        "changeSet"@ == seq!['c', 'h', 'a', 'n', 'g', 'e', 'S', 'e', 't'],
        "changeSets"@ == seq!['c', 'h', 'a', 'n', 'g', 'e', 'S', 'e', 't', 's'],
        "previousBuild"@ == seq!['p', 'r', 'e', 'v', 'i', 'o', 'u', 's', 'B', 'u', 'i', 'l', 'd'],
        "runs"@ == seq!['r', 'u', 'n', 's'],
        "mavenVersionUsed"@ == seq!['m', 'a', 'v', 'e', 'n', 'V', 'e', 'r', 's', 'i', 'o', 'n', 'U', 's', 'e', 'd'],
        "mavenArtifacts"@ == seq!['m', 'a', 'v', 'e', 'n', 'A', 'r', 't', 'i', 'f', 'a', 'c', 't', 's'],
        "displayPath"@ == seq!['d', 'i', 's', 'p', 'l', 'a', 'y', 'P', 'a', 't', 'h'],
        "fileName"@ == seq!['f', 'i', 'l', 'e', 'N', 'a', 'm', 'e'],
        "relativePath"@ == seq!['r', 'e', 'l', 'a', 't', 'i', 'v', 'e', 'P', 'a', 't', 'h'],
        "fullName"@ == seq!['f', 'u', 'l', 'l', 'N', 'a', 'm', 'e'],
        "absoluteUrl"@ == seq!['a', 'b', 's', 'o', 'l', 'u', 't', 'e', 'U', 'r', 'l'],
{
    reveal_strlit("url");
    reveal_strlit("number");
    reveal_strlit("duration");
    reveal_strlit("estimatedDuration");
    reveal_strlit("timestamp");
    reveal_strlit("keepLog");
    reveal_strlit("result");
    reveal_strlit("displayName");
    reveal_strlit("fullDisplayName");
    reveal_strlit("description");
    reveal_strlit("building");
    reveal_strlit("id");
    reveal_strlit("queueId");
    reveal_strlit("actions");
    reveal_strlit("artifacts");
    reveal_strlit("_class");
    reveal_strlit("builtOn");
    reveal_strlit("changeSet");
    reveal_strlit("changeSets");
    reveal_strlit("previousBuild");
    reveal_strlit("runs");
    reveal_strlit("mavenVersionUsed");
    reveal_strlit("mavenArtifacts");
    reveal_strlit("displayPath");
    reveal_strlit("fileName");
    reveal_strlit("relativePath");
    reveal_strlit("fullName");
    reveal_strlit("absoluteUrl");
    assert("url"@ =~= seq!['u', 'r', 'l']);
    assert("number"@ =~= seq!['n', 'u', 'm', 'b', 'e', 'r']);
    assert("duration"@ =~= seq!['d', 'u', 'r', 'a', 't', 'i', 'o', 'n']);
    assert("estimatedDuration"@ =~= seq!['e', 's', 't', 'i', 'm', 'a', 't', 'e', 'd', 'D', 'u', 'r', 'a', 't', 'i', 'o', 'n']);
    assert("timestamp"@ =~= seq!['t', 'i', 'm', 'e', 's', 't', 'a', 'm', 'p']);
    assert("keepLog"@ =~= seq!['k', 'e', 'e', 'p', 'L', 'o', 'g']);
    assert("result"@ =~= seq!['r', 'e', 's', 'u', 'l', 't']);
    assert("displayName"@ =~= seq!['d', 'i', 's', 'p', 'l', 'a', 'y', 'N', 'a', 'm', 'e']);
    assert("fullDisplayName"@ =~= seq!['f', 'u', 'l', 'l', 'D', 'i', 's', 'p', 'l', 'a', 'y', 'N', 'a', 'm', 'e']);
    assert("description"@ =~= seq!['d', 'e', 's', 'c', 'r', 'i', 'p', 't', 'i', 'o', 'n']);
    assert("building"@ =~= seq!['b', 'u', 'i', 'l', 'd', 'i', 'n', 'g']);
    assert("id"@ =~= seq!['i', 'd']);
    assert("queueId"@ =~= seq!['q', 'u', 'e', 'u', 'e', 'I', 'd']);
    assert("actions"@ =~= seq!['a', 'c', 't', 'i', 'o', 'n', 's']);
    assert("artifacts"@ =~= seq!['a', 'r', 't', 'i', 'f', 'a', 'c', 't', 's']);
    assert("_class"@ =~= seq!['_', 'c', 'l', 'a', 's', 's']);
    assert("builtOn"@ =~= seq!['b', 'u', 'i', 'l', 't', 'O', 'n']);
    assert("changeSet"@ =~= seq!['c', 'h', 'a', 'n', 'g', 'e', 'S', 'e', 't']);
    assert("changeSets"@ =~= seq!['c', 'h', 'a', 'n', 'g', 'e', 'S', 'e', 't', 's']);
    assert("previousBuild"@ =~= seq!['p', 'r', 'e', 'v', 'i', 'o', 'u', 's', 'B', 'u', 'i', 'l', 'd']);
    assert("runs"@ =~= seq!['r', 'u', 'n', 's']);
    assert("mavenVersionUsed"@ =~= seq!['m', 'a', 'v', 'e', 'n', 'V', 'e', 'r', 's', 'i', 'o', 'n', 'U', 's', 'e', 'd']);
    assert("mavenArtifacts"@ =~= seq!['m', 'a', 'v', 'e', 'n', 'A', 'r', 't', 'i', 'f', 'a', 'c', 't', 's']);
    assert("displayPath"@ =~= seq!['d', 'i', 's', 'p', 'l', 'a', 'y', 'P', 'a', 't', 'h']);
    assert("fileName"@ =~= seq!['f', 'i', 'l', 'e', 'N', 'a', 'm', 'e']);
    assert("relativePath"@ =~= seq!['r', 'e', 'l', 'a', 't', 'i', 'v', 'e', 'P', 'a', 't', 'h']);
    assert("fullName"@ =~= seq!['f', 'u', 'l', 'l', 'N', 'a', 'm', 'e']);
    assert("absoluteUrl"@ =~= seq!['a', 'b', 's', 'o', 'l', 'u', 't', 'e', 'U', 'r', 'l']);
}

/// Relies on str's `PartialEq`: two string slices are equal exactly when
/// their character sequences are.
#[verifier::external_body]
pub(crate) fn str_eq(a: &str, b: &str) -> (r: bool)
    ensures
        r == (a@ == b@),
{
    a == b
}

} // verus!
