//! How plain field values are written into a content tree and read back.
//!
//! Each kind of value has a relation `*_rep(v, x)` (the tree `v` holds `x`),
//! an encoder that establishes it and a decoder that succeeds exactly on the
//! trees that hold some value.

use vstd::prelude::*;
use crate::binary32::{is_binary32, lemma_narrow_widen, lemma_widen_injective, narrow_exact, widen, widen_bits};
use crate::id::NodeId;
use crate::json::JsonValue;

verus! {

pub open spec fn str_rep(v: JsonValue, s: String) -> bool {
    v matches JsonValue::Str(t) && t@ == s@
}

pub open spec fn opt_str_rep(v: JsonValue, s: Option<String>) -> bool {
    match s {
        None => v is Null,
        Some(x) => str_rep(v, x),
    }
}

pub open spec fn opt_str_ok(v: JsonValue) -> bool {
    v is Null || v is Str
}

pub open spec fn uint_rep(v: JsonValue, n: int) -> bool {
    v matches JsonValue::UInt(m) && m == n
}

pub open spec fn int_rep(v: JsonValue, n: int) -> bool {
    v matches JsonValue::Int(m) && m == n
}

pub open spec fn opt_u32_rep(v: JsonValue, n: Option<u32>) -> bool {
    match n {
        None => v is Null,
        Some(x) => uint_rep(v, x as int),
    }
}

pub open spec fn opt_u32_ok(v: JsonValue) -> bool {
    v is Null || (v matches JsonValue::UInt(m) && m <= u32::MAX)
}

pub open spec fn opt_i64_rep(v: JsonValue, n: Option<i64>) -> bool {
    match n {
        None => v is Null,
        Some(x) => int_rep(v, x as int),
    }
}

pub open spec fn opt_i64_ok(v: JsonValue) -> bool {
    v is Null || v is Int
}

pub open spec fn opt_bool_rep(v: JsonValue, b: Option<bool>) -> bool {
    match b {
        None => v is Null,
        Some(x) => v == JsonValue::Bool(x),
    }
}

pub open spec fn opt_bool_ok(v: JsonValue) -> bool {
    v is Null || v is Bool
}

pub open spec fn id_rep(v: JsonValue, id: NodeId) -> bool {
    str_rep(v, id.0)
}

pub open spec fn opt_id_rep(v: JsonValue, id: Option<NodeId>) -> bool {
    match id {
        None => v is Null,
        Some(x) => id_rep(v, x),
    }
}

/// The elements of an array value.
pub open spec fn items(v: JsonValue) -> Seq<JsonValue> {
    match v {
        JsonValue::Array(xs) => xs@,
        _ => Seq::empty(),
    }
}

pub open spec fn bytes_rep(v: JsonValue, b: Seq<u8>) -> bool {
    &&& v is Array
    &&& items(v).len() == b.len()
    &&& forall|i: int| 0 <= i < b.len() ==> uint_rep(#[trigger] items(v)[i], b[i] as int)
}

pub open spec fn bytes_ok(v: JsonValue) -> bool {
    &&& v is Array
    &&& forall|i: int| 0 <= i < items(v).len() ==>
        (#[trigger] items(v)[i] matches JsonValue::UInt(m) && m <= u8::MAX)
}

/// `v` is the number whose binary32 bits are `b`, written as binary64.
pub open spec fn f32_rep(v: JsonValue, b: u32) -> bool {
    v == JsonValue::Float(widen(b))
}

/// `v` is a number that binary32 represents.
pub open spec fn f32_ok(v: JsonValue) -> bool {
    v matches JsonValue::Float(d) && is_binary32(d)
}

pub open spec fn opt_f32_rep(v: JsonValue, n: Option<u32>) -> bool {
    match n {
        None => v is Null,
        Some(x) => f32_rep(v, x),
    }
}

pub open spec fn opt_f32_ok(v: JsonValue) -> bool {
    v is Null || f32_ok(v)
}

pub open spec fn f32s_rep(v: JsonValue, b: Seq<u32>) -> bool {
    &&& v is Array
    &&& items(v).len() == b.len()
    &&& forall|i: int| 0 <= i < b.len() ==> f32_rep(#[trigger] items(v)[i], b[i])
}

pub open spec fn f32s_ok(v: JsonValue) -> bool {
    &&& v is Array
    &&& forall|i: int| 0 <= i < items(v).len() ==> f32_ok(#[trigger] items(v)[i])
}

pub open spec fn strs_rep(v: JsonValue, s: Seq<String>) -> bool {
    &&& v is Array
    &&& items(v).len() == s.len()
    &&& forall|i: int| 0 <= i < s.len() ==> str_rep(#[trigger] items(v)[i], s[i])
}

pub open spec fn strs_ok(v: JsonValue) -> bool {
    &&& v is Array
    &&& forall|i: int| 0 <= i < items(v).len() ==> (#[trigger] items(v)[i] is Str)
}

pub open spec fn ids_rep(v: JsonValue, s: Seq<NodeId>) -> bool {
    &&& v is Array
    &&& items(v).len() == s.len()
    &&& forall|i: int| 0 <= i < s.len() ==> id_rep(#[trigger] items(v)[i], s[i])
}

/// Two sequences of strings with the same texts.
pub open spec fn same_texts(a: Seq<String>, b: Seq<String>) -> bool {
    &&& a.len() == b.len()
    &&& forall|i: int| 0 <= i < a.len() ==> (#[trigger] a[i])@ == b[i]@
}

/// Two sequences of identifiers with the same texts.
pub open spec fn same_ids(a: Seq<NodeId>, b: Seq<NodeId>) -> bool {
    &&& a.len() == b.len()
    &&& forall|i: int| 0 <= i < a.len() ==> (#[trigger] a[i]).0@ == b[i].0@
}

/// Two optional strings with the same text.
pub open spec fn same_opt_text(a: Option<String>, b: Option<String>) -> bool {
    match (a, b) {
        (None, None) => true,
        (Some(x), Some(y)) => x@ == y@,
        _ => false,
    }
}

/// Two optional identifiers with the same text.
pub open spec fn same_opt_id(a: Option<NodeId>, b: Option<NodeId>) -> bool {
    match (a, b) {
        (None, None) => true,
        (Some(x), Some(y)) => x.0@ == y.0@,
        _ => false,
    }
}

pub(crate) fn enc_str(s: &String) -> (r: JsonValue)
    ensures
        str_rep(r, *s),
{
    JsonValue::Str(s.clone())
}

pub(crate) fn enc_opt_str(s: &Option<String>) -> (r: JsonValue)
    ensures
        opt_str_rep(r, *s),
{
    match s {
        Some(t) => JsonValue::Str(t.clone()),
        None => JsonValue::Null,
    }
}

pub(crate) fn enc_opt_u32(n: Option<u32>) -> (r: JsonValue)
    ensures
        opt_u32_rep(r, n),
{
    match n {
        Some(x) => JsonValue::UInt(x as u64),
        None => JsonValue::Null,
    }
}

pub(crate) fn enc_opt_i64(n: Option<i64>) -> (r: JsonValue)
    ensures
        opt_i64_rep(r, n),
{
    match n {
        Some(x) => JsonValue::Int(x),
        None => JsonValue::Null,
    }
}

pub(crate) fn enc_opt_bool(b: Option<bool>) -> (r: JsonValue)
    ensures
        opt_bool_rep(r, b),
{
    match b {
        Some(x) => JsonValue::Bool(x),
        None => JsonValue::Null,
    }
}

pub(crate) fn enc_opt_id(id: &Option<NodeId>) -> (r: JsonValue)
    ensures
        opt_id_rep(r, *id),
{
    match id {
        Some(x) => JsonValue::Str(x.0.clone()),
        None => JsonValue::Null,
    }
}

pub(crate) fn enc_bytes(b: &Vec<u8>) -> (r: JsonValue)
    ensures
        bytes_rep(r, b@),
{
    let mut out: Vec<JsonValue> = Vec::new();
    let mut i: usize = 0;
    while i < b.len()
        invariant
            i <= b@.len(),
            out@.len() == i,
            forall|j: int| 0 <= j < i ==> uint_rep(#[trigger] out@[j], b@[j] as int),
        decreases b@.len() - i,
    {
        out.push(JsonValue::UInt(b[i] as u64));
        i = i + 1;
    }
    JsonValue::Array(out)
}

pub(crate) fn enc_f32s(b: &Vec<u32>) -> (r: JsonValue)
    ensures
        f32s_rep(r, b@),
{
    let mut out: Vec<JsonValue> = Vec::new();
    let mut i: usize = 0;
    while i < b.len()
        invariant
            i <= b@.len(),
            out@.len() == i,
            forall|j: int| 0 <= j < i ==> f32_rep(#[trigger] out@[j], b@[j]),
        decreases b@.len() - i,
    {
        out.push(JsonValue::Float(widen_bits(b[i])));
        i = i + 1;
    }
    JsonValue::Array(out)
}

pub(crate) fn enc_opt_f32(n: Option<u32>) -> (r: JsonValue)
    ensures
        opt_f32_rep(r, n),
{
    match n {
        Some(x) => JsonValue::Float(widen_bits(x)),
        None => JsonValue::Null,
    }
}

pub(crate) fn dec_f32(v: &JsonValue) -> (r: Option<u32>)
    ensures
        r is Some <==> f32_ok(*v),
        r matches Some(b) ==> f32_rep(*v, b),
{
    match v {
        JsonValue::Float(d) => narrow_exact(*d),
        _ => None,
    }
}

pub(crate) fn dec_opt_f32(v: &JsonValue) -> (r: Option<Option<u32>>)
    ensures
        r is Some <==> opt_f32_ok(*v),
        r matches Some(n) ==> opt_f32_rep(*v, n),
{
    match v {
        JsonValue::Null => Some(None),
        _ => {
            let b = dec_f32(v)?;
            Some(Some(b))
        },
    }
}

pub(crate) fn enc_strs(s: &Vec<String>) -> (r: JsonValue)
    ensures
        strs_rep(r, s@),
{
    let mut out: Vec<JsonValue> = Vec::new();
    let mut i: usize = 0;
    while i < s.len()
        invariant
            i <= s@.len(),
            out@.len() == i,
            forall|j: int| 0 <= j < i ==> str_rep(#[trigger] out@[j], s@[j]),
        decreases s@.len() - i,
    {
        out.push(JsonValue::Str(s[i].clone()));
        i = i + 1;
    }
    JsonValue::Array(out)
}

pub(crate) fn enc_ids(s: &Vec<NodeId>) -> (r: JsonValue)
    ensures
        ids_rep(r, s@),
{
    let mut out: Vec<JsonValue> = Vec::new();
    let mut i: usize = 0;
    while i < s.len()
        invariant
            i <= s@.len(),
            out@.len() == i,
            forall|j: int| 0 <= j < i ==> id_rep(#[trigger] out@[j], s@[j]),
        decreases s@.len() - i,
    {
        out.push(JsonValue::Str(s[i].0.clone()));
        i = i + 1;
    }
    JsonValue::Array(out)
}

pub(crate) fn dec_str(v: &JsonValue) -> (r: Option<String>)
    ensures
        r is Some <==> v is Str,
        r matches Some(s) ==> str_rep(*v, s),
{
    match v {
        JsonValue::Str(t) => Some(t.clone()),
        _ => None,
    }
}

pub(crate) fn dec_opt_str(v: &JsonValue) -> (r: Option<Option<String>>)
    ensures
        r is Some <==> opt_str_ok(*v),
        r matches Some(s) ==> opt_str_rep(*v, s),
{
    match v {
        JsonValue::Null => Some(None),
        JsonValue::Str(t) => Some(Some(t.clone())),
        _ => None,
    }
}

pub(crate) fn dec_opt_u32(v: &JsonValue) -> (r: Option<Option<u32>>)
    ensures
        r is Some <==> opt_u32_ok(*v),
        r matches Some(n) ==> opt_u32_rep(*v, n),
{
    match v {
        JsonValue::Null => Some(None),
        JsonValue::UInt(n) => {
            if *n <= 0xFFFF_FFFF {
                Some(Some(*n as u32))
            } else {
                None
            }
        },
        _ => None,
    }
}

pub(crate) fn dec_opt_i64(v: &JsonValue) -> (r: Option<Option<i64>>)
    ensures
        r is Some <==> opt_i64_ok(*v),
        r matches Some(n) ==> opt_i64_rep(*v, n),
{
    match v {
        JsonValue::Null => Some(None),
        JsonValue::Int(n) => Some(Some(*n)),
        _ => None,
    }
}

pub(crate) fn dec_opt_bool(v: &JsonValue) -> (r: Option<Option<bool>>)
    ensures
        r is Some <==> opt_bool_ok(*v),
        r matches Some(b) ==> opt_bool_rep(*v, b),
{
    match v {
        JsonValue::Null => Some(None),
        JsonValue::Bool(b) => Some(Some(*b)),
        _ => None,
    }
}

pub(crate) fn dec_opt_id(v: &JsonValue) -> (r: Option<Option<NodeId>>)
    ensures
        r is Some <==> opt_str_ok(*v),
        r matches Some(id) ==> opt_id_rep(*v, id),
{
    match v {
        JsonValue::Null => Some(None),
        JsonValue::Str(t) => Some(Some(NodeId(t.clone()))),
        _ => None,
    }
}

pub(crate) fn dec_bytes(v: &JsonValue) -> (r: Option<Vec<u8>>)
    ensures
        r is Some <==> bytes_ok(*v),
        r matches Some(b) ==> bytes_rep(*v, b@),
{
    match v {
        JsonValue::Array(xs) => {
            let mut out: Vec<u8> = Vec::new();
            let mut i: usize = 0;
            while i < xs.len()
                invariant
                    *v is Array,
                    items(*v) == xs@,
                    i <= xs@.len(),
                    out@.len() == i,
                    forall|j: int| 0 <= j < i ==> uint_rep(#[trigger] xs@[j], out@[j] as int),
                    forall|j: int| 0 <= j < i ==>
                        (#[trigger] xs@[j] matches JsonValue::UInt(m) && m <= u8::MAX),
                decreases xs@.len() - i,
            {
                match &xs[i] {
                    JsonValue::UInt(n) => {
                        if *n <= 0xFF {
                            out.push(*n as u8);
                        } else {
                            assert(items(*v)[i as int] == xs@[i as int]);
                            return None;
                        }
                    },
                    _ => {
                        assert(items(*v)[i as int] == xs@[i as int]);
                        return None;
                    },
                }
                i = i + 1;
            }
            Some(out)
        },
        _ => None,
    }
}

pub(crate) fn dec_f32s(v: &JsonValue) -> (r: Option<Vec<u32>>)
    ensures
        r is Some <==> f32s_ok(*v),
        r matches Some(b) ==> f32s_rep(*v, b@),
{
    match v {
        JsonValue::Array(xs) => {
            let mut out: Vec<u32> = Vec::new();
            let mut i: usize = 0;
            while i < xs.len()
                invariant
                    *v is Array,
                    items(*v) == xs@,
                    i <= xs@.len(),
                    out@.len() == i,
                    forall|j: int| 0 <= j < i ==> f32_rep(#[trigger] xs@[j], out@[j]),
                    forall|j: int| 0 <= j < i ==> f32_ok(#[trigger] xs@[j]),
                decreases xs@.len() - i,
            {
                match dec_f32(&xs[i]) {
                    Some(b) => out.push(b),
                    None => {
                        assert(items(*v)[i as int] == xs@[i as int]);
                        return None;
                    },
                }
                i = i + 1;
            }
            Some(out)
        },
        _ => None,
    }
}

pub(crate) fn dec_strs(v: &JsonValue) -> (r: Option<Vec<String>>)
    ensures
        r is Some <==> strs_ok(*v),
        r matches Some(s) ==> strs_rep(*v, s@),
{
    match v {
        JsonValue::Array(xs) => {
            let mut out: Vec<String> = Vec::new();
            let mut i: usize = 0;
            while i < xs.len()
                invariant
                    *v is Array,
                    items(*v) == xs@,
                    i <= xs@.len(),
                    out@.len() == i,
                    forall|j: int| 0 <= j < i ==> str_rep(#[trigger] xs@[j], out@[j]),
                decreases xs@.len() - i,
            {
                match &xs[i] {
                    JsonValue::Str(t) => {
                        out.push(t.clone());
                    },
                    _ => {
                        assert(items(*v)[i as int] == xs@[i as int]);
                        return None;
                    },
                }
                i = i + 1;
            }
            Some(out)
        },
        _ => None,
    }
}

pub(crate) fn dec_ids(v: &JsonValue) -> (r: Option<Vec<NodeId>>)
    ensures
        r is Some <==> strs_ok(*v),
        r matches Some(s) ==> ids_rep(*v, s@),
{
    match v {
        JsonValue::Array(xs) => {
            let mut out: Vec<NodeId> = Vec::new();
            let mut i: usize = 0;
            while i < xs.len()
                invariant
                    *v is Array,
                    items(*v) == xs@,
                    i <= xs@.len(),
                    out@.len() == i,
                    forall|j: int| 0 <= j < i ==> id_rep(#[trigger] xs@[j], out@[j]),
                decreases xs@.len() - i,
            {
                match &xs[i] {
                    JsonValue::Str(t) => {
                        out.push(NodeId(t.clone()));
                    },
                    _ => {
                        assert(items(*v)[i as int] == xs@[i as int]);
                        return None;
                    },
                }
                i = i + 1;
            }
            Some(out)
        },
        _ => None,
    }
}

/// Whether entry `k` of `entries` is keyed `key`.
pub open spec fn key_at(entries: Seq<(String, JsonValue)>, k: int, key: Seq<char>) -> bool {
    0 <= k < entries.len() && entries[k].0@ == key
}

/// Checks that entry `k` is keyed `key`.
pub(crate) fn has_key_at(entries: &Vec<(String, JsonValue)>, k: usize, key: &str) -> (r: bool)
    ensures
        r == key_at(entries@, k as int, key@),
{
    if k < entries.len() {
        let expected = String::from_str(key);
        entries[k].0 == expected
    } else {
        false
    }
}


/// A tree holds one sequence of texts only.
pub proof fn lemma_strs_rep_unique(v: JsonValue, a: Seq<String>, b: Seq<String>)
    requires
        strs_rep(v, a),
        strs_rep(v, b),
    ensures
        same_texts(a, b),
{
    assert forall|i: int| 0 <= i < a.len() implies (#[trigger] a[i])@ == b[i]@ by {
        assert(str_rep(items(v)[i], a[i]));
        assert(str_rep(items(v)[i], b[i]));
    }
}

/// A tree holds one sequence of identifiers only.
pub proof fn lemma_ids_rep_unique(v: JsonValue, a: Seq<NodeId>, b: Seq<NodeId>)
    requires
        ids_rep(v, a),
        ids_rep(v, b),
    ensures
        same_ids(a, b),
{
    assert forall|i: int| 0 <= i < a.len() implies (#[trigger] a[i]).0@ == b[i].0@ by {
        assert(id_rep(items(v)[i], a[i]));
        assert(id_rep(items(v)[i], b[i]));
    }
}

/// A tree holds one byte sequence only.
pub proof fn lemma_bytes_rep_unique(v: JsonValue, a: Seq<u8>, b: Seq<u8>)
    requires
        bytes_rep(v, a),
        bytes_rep(v, b),
    ensures
        a == b,
{
    assert forall|i: int| 0 <= i < a.len() implies a[i] == b[i] by {
        assert(uint_rep(items(v)[i], a[i] as int));
        assert(uint_rep(items(v)[i], b[i] as int));
    }
    assert(a =~= b);
}

/// A tree holds one binary32 number only, and a written number can be
/// read back.
pub proof fn lemma_f32_rep(v: JsonValue, a: u32)
    requires
        f32_rep(v, a),
    ensures
        f32_ok(v),
        forall|b: u32| f32_rep(v, b) ==> a == b,
{
    lemma_narrow_widen(a);
    assert forall|b: u32| f32_rep(v, b) implies a == b by {
        lemma_widen_injective(a, b);
    }
}

/// A tree holds one sequence of binary32 numbers only.
pub proof fn lemma_f32s_rep_unique(v: JsonValue, a: Seq<u32>, b: Seq<u32>)
    requires
        f32s_rep(v, a),
        f32s_rep(v, b),
    ensures
        a == b,
{
    assert forall|i: int| 0 <= i < a.len() implies a[i] == b[i] by {
        assert(f32_rep(items(v)[i], a[i]));
        assert(f32_rep(items(v)[i], b[i]));
        lemma_f32_rep(items(v)[i], a[i]);
    }
    assert(a =~= b);
}

/// A written sequence of binary32 numbers can be read back.
pub proof fn lemma_f32s_rep_ok(v: JsonValue, a: Seq<u32>)
    requires
        f32s_rep(v, a),
    ensures
        f32s_ok(v),
{
    assert forall|i: int| 0 <= i < items(v).len() implies f32_ok(#[trigger] items(v)[i]) by {
        assert(f32_rep(items(v)[i], a[i]));
        lemma_f32_rep(items(v)[i], a[i]);
    }
}

} // verus!
