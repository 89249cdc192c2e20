//! A user, not always a Jenkins user.
use vstd::prelude::*;

use crate::error::{structural, structural_key, DecodeError};
use crate::value::{
    at_most_once, lemma_key_literals, lemma_push_keys, lemma_sub_keys, str_eq, str_field,
    str_inv, JsonValue,
};

verus! {

/// Short user reference used in lists and links from other structs.
#[derive(Debug, PartialEq)]
pub struct ShortUser {
    /// Full name of the user
    pub full_name: String,
    /// Absolute URL to the user profile
    pub absolute_url: String,
}

/// The short user a document stands for: an object binding `fullName` and
/// `absoluteUrl` to strings, each once. Other fields are ignored.
pub open spec fn short_user_of(v: JsonValue) -> Option<ShortUser> {
    match v {
        JsonValue::Obj(entries) => {
            let f = entries@;
            if str_field(f, "fullName"@) is Some && at_most_once(f, "fullName"@) && str_field(
                f,
                "absoluteUrl"@,
            ) is Some && at_most_once(f, "absoluteUrl"@) {
                Some(
                    ShortUser {
                        full_name: str_field(f, "fullName"@)->Some_0,
                        absolute_url: str_field(f, "absoluteUrl"@)->Some_0,
                    },
                )
            } else {
                None
            }
        },
        _ => None,
    }
}

/// Key `k` is a reason a short user reference refuses a document: the
/// document is no object, or a declared field is missing, duplicated or
/// ill-shaped.
pub open spec fn short_user_fault(v: JsonValue, k: Seq<char>) -> bool {
    ||| !(v is Obj)
    ||| (k == "fullName"@ && !(str_field(v->Obj_0@, k) is Some && at_most_once(v->Obj_0@, k)))
    ||| (k == "absoluteUrl"@ && !(str_field(v->Obj_0@, k) is Some && at_most_once(v->Obj_0@, k)))
}

/// Decode a short user reference.
#[verifier::loop_isolation(false)]
pub fn decode_short_user(v: JsonValue) -> (r: Result<ShortUser, DecodeError>)
    ensures
        r is Ok <==> short_user_of(v) is Some,
        r matches Ok(u) ==> Some(u) == short_user_of(v),
        r matches Err(e) ==> (e matches DecodeError::StructuralDecodeError { field }
            && short_user_fault(v, field@)),
{
    let mut fields = match v {
        JsonValue::Obj(entries) => entries,
        _ => {
            return Err(structural("fullName"));
        },
    };
    proof {
        lemma_key_literals();
    }
    let ghost orig = fields@;
    let ghost mut pre: Seq<(String, JsonValue)> = Seq::empty();
    let mut full_s: Option<String> = None;
    let mut abs_s: Option<String> = None;
    while fields.len() > 0
        invariant
            orig == pre + fields@,
            str_inv(pre, "fullName"@, full_s),
            str_inv(pre, "absoluteUrl"@, abs_s),
        decreases fields.len(),
    {
        let ghost pref = fields@;
        let kv = fields.remove(0);
        let ghost e = kv;
        let (k, v) = kv;
        proof {
            assert(pre.push(e) + fields@ =~= pre + pref);
            assert(orig.subrange(0, pre.len() as int + 1) =~= pre.push(e));
            lemma_push_keys(pre, e);
            lemma_sub_keys(orig, pre.len() as int + 1);
        }
        if str_eq(k.as_str(), "fullName") {
            if full_s.is_some() {
                return Err(structural_key(k));
            }
            match v {
                JsonValue::Str(s) => {
                    full_s = Some(s);
                },
                _ => {
                    return Err(structural_key(k));
                },
            }
        } else if str_eq(k.as_str(), "absoluteUrl") {
            if abs_s.is_some() {
                return Err(structural_key(k));
            }
            match v {
                JsonValue::Str(s) => {
                    abs_s = Some(s);
                },
                _ => {
                    return Err(structural_key(k));
                },
            }
        }
        proof {
            pre = pre.push(e);
        }
    }
    proof {
        assert(pre =~= orig);
    }
    let full_name = match full_s {
        Some(s) => s,
        None => {
            return Err(structural("fullName"));
        },
    };
    let absolute_url = match abs_s {
        Some(s) => s,
        None => {
            return Err(structural("absoluteUrl"));
        },
    };
    Ok(ShortUser { full_name, absolute_url })
}

} // verus!
