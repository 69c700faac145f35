//! JSON documents, and the trusted surface over serde_json.
//!
//! A payload is parsed once, by serde_json, into `JsonDoc`: a document tree
//! the library owns, with strings, integers and booleans as plain values.
//! Parsing is deterministic (this build of serde_json keys objects with a
//! sorted map and has no non-default features), so the document a text
//! parses to is given a name, `json_doc_of`; every decoder downstream is a
//! verified function of the document, with exact contracts over that name.

use vstd::prelude::*;
use crate::scan::chars_of;

verus! {

/// One JSON document: the library's own tree. Object members are key-value
/// pairs with distinct keys, ordered by key; a number outside the `u64` and
/// `i64` ranges (for example any fractional number) is kept only as the
/// `OtherNum` marker, which every schema here rejects.
pub enum JsonDoc {
    Null,
    Bool(bool),
    UInt(u64),
    Int(i64),
    OtherNum,
    Str(String),
    Arr(Vec<JsonDoc>),
    Obj(Vec<(String, JsonDoc)>),
}

#[verifier::external_type_specification]
#[verifier::external_body]
pub struct ExValue(serde_json::Value);

/// Whether serde_json's grammar accepts the text as one JSON document.
pub uninterp spec fn json_well_formed(s: Seq<char>) -> bool;

/// The document a well-formed text parses to. Meaningful only where
/// `json_well_formed` holds; parsing is deterministic, so the document is a
/// function of the text alone.
pub uninterp spec fn json_doc_of(s: Seq<char>) -> JsonDoc;

/// Relies on serde_json::from_str::<Value>: it succeeds exactly on text that
/// parses as one JSON document, deterministically, and the conversion below
/// keeps every value the schemas read.
#[verifier::external_body]
pub(crate) fn parse_doc(s: &str) -> (r: Option<JsonDoc>)
    ensures
        r is Some <==> json_well_formed(s@),
        r matches Some(d) ==> d == json_doc_of(s@),
{
    serde_json::from_str::<serde_json::Value>(s).ok().map(doc_of_value)
}

/// Relies on serde_json::Value being a finite tree whose variants carry the
/// values below, and on Number::as_u64 / Number::as_i64 reading an integer
/// number exactly when it fits the range: one arm per variant, moving the
/// values into the library's tree.
#[verifier::external_body]
fn doc_of_value(v: serde_json::Value) -> JsonDoc {
    match v {
        serde_json::Value::Null => JsonDoc::Null,
        serde_json::Value::Bool(b) => JsonDoc::Bool(b),
        serde_json::Value::Number(n) => match (n.as_u64(), n.as_i64()) {
            (Some(u), _) => JsonDoc::UInt(u),
            (None, Some(i)) => JsonDoc::Int(i),
            (None, None) => JsonDoc::OtherNum,
        },
        serde_json::Value::String(s) => JsonDoc::Str(s),
        serde_json::Value::Array(a) => JsonDoc::Arr(a.into_iter().map(doc_of_value).collect()),
        serde_json::Value::Object(o) => JsonDoc::Obj(
            o.into_iter().map(|(k, x)| (k, doc_of_value(x))).collect(),
        ),
    }
}

/// The member under `key` in a pair list: the first pair whose key matches.
pub open spec fn doc_lookup(ps: Seq<(String, JsonDoc)>, key: Seq<char>) -> Option<JsonDoc>
    decreases ps.len(),
{
    if ps.len() == 0 {
        None
    } else if ps[0].0@ == key {
        Some(ps[0].1)
    } else {
        doc_lookup(ps.drop_first(), key)
    }
}

/// The member of an object document under `key`.
pub open spec fn doc_field(d: JsonDoc, key: Seq<char>) -> Option<JsonDoc> {
    match d {
        JsonDoc::Obj(ps) => doc_lookup(ps@, key),
        _ => None,
    }
}

/// The content of a string document.
pub open spec fn doc_str(d: JsonDoc) -> Option<String> {
    match d {
        JsonDoc::Str(s) => Some(s),
        _ => None,
    }
}

/// The value of an unsigned integer document.
pub open spec fn doc_uint(d: JsonDoc) -> Option<u64> {
    match d {
        JsonDoc::UInt(u) => Some(u),
        _ => None,
    }
}

/// The value of an integer document that fits `i64`.
pub open spec fn doc_int(d: JsonDoc) -> Option<i64> {
    match d {
        JsonDoc::UInt(u) => if u <= 0x7fff_ffff_ffff_ffff {
            Some(u as i64)
        } else {
            None
        },
        JsonDoc::Int(i) => Some(i),
        _ => None,
    }
}

/// The value of a boolean document.
pub open spec fn doc_bool(d: JsonDoc) -> Option<bool> {
    match d {
        JsonDoc::Bool(b) => Some(b),
        _ => None,
    }
}

/// The elements of an array document.
pub open spec fn doc_items(d: JsonDoc) -> Option<Seq<JsonDoc>> {
    match d {
        JsonDoc::Arr(v) => Some(v@),
        _ => None,
    }
}

/// The element of an array document at position `i`.
pub open spec fn doc_item(d: JsonDoc, i: int) -> Option<JsonDoc> {
    match doc_items(d) {
        Some(items) => if 0 <= i < items.len() {
            Some(items[i])
        } else {
            None
        },
        None => None,
    }
}

/// Whether two texts hold the same characters.
pub fn str_eq(a: &str, b: &str) -> (r: bool)
    ensures
        r == (a@ == b@),
{
    let av = chars_of(a);
    let bv = chars_of(b);
    let n = av.len();
    if n != bv.len() {
        proof {
            assert(a@.len() != b@.len());
        }
        return false;
    }
    let mut i: usize = 0;
    while i < n
        invariant
            n == av@.len() == bv@.len(),
            av@ == a@,
            bv@ == b@,
            i <= n,
            forall|j: int| 0 <= j < i ==> a@[j] == b@[j],
        decreases n - i,
    {
        if av[i] != bv[i] {
            return false;
        }
        i = i + 1;
    }
    proof {
        assert(a@ =~= b@);
    }
    true
}

/// The member of an object document under `key`, by reference.
pub fn doc_get<'a>(d: &'a JsonDoc, key: &str) -> (r: Option<&'a JsonDoc>)
    ensures
        match r {
            Some(x) => doc_field(*d, key@) == Some(*x),
            None => doc_field(*d, key@) is None,
        },
{
    match d {
        JsonDoc::Obj(ps) => {
            let n = ps.len();
            let mut i: usize = 0;
            proof {
                assert(ps@.skip(0) =~= ps@);
            }
            while i < n
                invariant
                    n == ps@.len(),
                    i <= n,
                    doc_field(*d, key@) == doc_lookup(ps@, key@),
                    doc_lookup(ps@, key@) == doc_lookup(ps@.skip(i as int), key@),
                decreases n - i,
            {
                proof {
                    assert(ps@.skip(i as int)[0] == ps@[i as int]);
                    assert(ps@.skip(i as int).drop_first() =~= ps@.skip(i + 1 as int));
                }
                let pair = &ps[i];
                if str_eq(pair.0.as_str(), key) {
                    proof {
                        assert(ps@[i as int].0@ == key@);
                        assert(doc_lookup(ps@.skip(i as int), key@) == Some(ps@[i as int].1));
                    }
                    return Some(&pair.1);
                }
                proof {
                    assert(ps@[i as int].0@ != key@);
                    assert(doc_lookup(ps@.skip(i as int), key@) == doc_lookup(
                        ps@.skip(i + 1 as int),
                        key@,
                    ));
                }
                i = i + 1;
            }
            proof {
                assert(ps@.skip(n as int) =~= Seq::<(String, JsonDoc)>::empty());
            }
            None
        },
        _ => None,
    }
}

/// The string content of a document, owned.
pub fn doc_as_string(d: &JsonDoc) -> (r: Option<String>)
    ensures
        r == doc_str(*d),
{
    match d {
        JsonDoc::Str(s) => Some(s.clone()),
        _ => None,
    }
}

/// The `u64` value of a document.
pub fn doc_as_u64(d: &JsonDoc) -> (r: Option<u64>)
    ensures
        r == doc_uint(*d),
{
    match d {
        JsonDoc::UInt(u) => Some(*u),
        _ => None,
    }
}

/// The `i64` value of a document.
pub fn doc_as_i64(d: &JsonDoc) -> (r: Option<i64>)
    ensures
        r == doc_int(*d),
{
    match d {
        JsonDoc::UInt(u) => if *u <= 0x7fff_ffff_ffff_ffff {
            Some(*u as i64)
        } else {
            None
        },
        JsonDoc::Int(i) => Some(*i),
        _ => None,
    }
}

/// The boolean value of a document.
pub fn doc_as_bool(d: &JsonDoc) -> (r: Option<bool>)
    ensures
        r == doc_bool(*d),
{
    match d {
        JsonDoc::Bool(b) => Some(*b),
        _ => None,
    }
}

/// The elements of an array document, by reference.
pub fn doc_as_array<'a>(d: &'a JsonDoc) -> (r: Option<&'a Vec<JsonDoc>>)
    ensures
        match r {
            Some(v) => doc_items(*d) == Some(v@),
            None => doc_items(*d) is None,
        },
{
    match d {
        JsonDoc::Arr(v) => Some(v),
        _ => None,
    }
}

/// The string member of an object document under `key`.
pub open spec fn fld_str(d: JsonDoc, key: Seq<char>) -> Option<String> {
    match doc_field(d, key) {
        Some(x) => doc_str(x),
        None => None,
    }
}

/// The `u64` member of an object document under `key`.
pub open spec fn fld_u64(d: JsonDoc, key: Seq<char>) -> Option<u64> {
    match doc_field(d, key) {
        Some(x) => doc_uint(x),
        None => None,
    }
}

/// The `i64` member of an object document under `key`.
pub open spec fn fld_i64(d: JsonDoc, key: Seq<char>) -> Option<i64> {
    match doc_field(d, key) {
        Some(x) => doc_int(x),
        None => None,
    }
}

/// The boolean member of an object document under `key`.
pub open spec fn fld_bool(d: JsonDoc, key: Seq<char>) -> Option<bool> {
    match doc_field(d, key) {
        Some(x) => doc_bool(x),
        None => None,
    }
}

/// The array member of an object document under `key`.
pub open spec fn fld_arr(d: JsonDoc, key: Seq<char>) -> Option<Seq<JsonDoc>> {
    match doc_field(d, key) {
        Some(x) => doc_items(x),
        None => None,
    }
}

/// The string member of `d` under `key`.
pub fn get_str(d: &JsonDoc, key: &str) -> (r: Option<String>)
    ensures
        r == fld_str(*d, key@),
{
    match doc_get(d, key) {
        Some(x) => doc_as_string(x),
        None => None,
    }
}

/// The `u64` member of `d` under `key`.
pub fn get_u64(d: &JsonDoc, key: &str) -> (r: Option<u64>)
    ensures
        r == fld_u64(*d, key@),
{
    match doc_get(d, key) {
        Some(x) => doc_as_u64(x),
        None => None,
    }
}

/// The `i64` member of `d` under `key`.
pub fn get_i64(d: &JsonDoc, key: &str) -> (r: Option<i64>)
    ensures
        r == fld_i64(*d, key@),
{
    match doc_get(d, key) {
        Some(x) => doc_as_i64(x),
        None => None,
    }
}

/// The boolean member of `d` under `key`.
pub fn get_bool(d: &JsonDoc, key: &str) -> (r: Option<bool>)
    ensures
        r == fld_bool(*d, key@),
{
    match doc_get(d, key) {
        Some(x) => doc_as_bool(x),
        None => None,
    }
}

/// The array member of `d` under `key`, by reference.
pub fn get_arr<'a>(d: &'a JsonDoc, key: &str) -> (r: Option<&'a Vec<JsonDoc>>)
    ensures
        match r {
            Some(v) => fld_arr(*d, key@) == Some(v@),
            None => fld_arr(*d, key@) is None,
        },
{
    match doc_get(d, key) {
        Some(x) => doc_as_array(x),
        None => None,
    }
}

} // verus!
