//! Reading typed fields out of a JSON object's key/value pairs.
//!
//! Each reader has a spec function saying what it gives for the pairs of an
//! object: a required field must be present with the right JSON type; an
//! optional field may be absent or `null` (both read as unset) and must
//! otherwise have the right type. `None` means the object does not fit.
use vstd::prelude::*;

use crate::text::strings_view;
use crate::json::{
    json_array_of, json_as_array, json_as_bool, json_as_number, json_as_string,
    json_as_u64, json_bool_of,
    json_is_null, json_is_null_of, json_number_of, json_str_of, json_u64_of, keys_distinct,
    lemma_lookup_at, lookup, opt_str_view, pairs_view, position_of_key, str_eq, JsonMap,
};

verus! {

/// The value of a field.
pub open spec fn field_spec(e: Seq<(Seq<char>, serde_json::Value)>, key: Seq<char>) -> Option<serde_json::Value> {
    lookup(e, key)
}

/// A required text field.
pub open spec fn req_string_spec(e: Seq<(Seq<char>, serde_json::Value)>, key: Seq<char>) -> Option<Seq<char>> {
    match lookup(e, key) {
        Some(v) => json_str_of(v),
        None => None,
    }
}

/// A required unsigned integer field.
pub open spec fn req_u64_spec(e: Seq<(Seq<char>, serde_json::Value)>, key: Seq<char>) -> Option<u64> {
    match lookup(e, key) {
        Some(v) => json_u64_of(v),
        None => None,
    }
}

/// A required unsigned integer field that fits 32 bits.
pub open spec fn req_u32_spec(e: Seq<(Seq<char>, serde_json::Value)>, key: Seq<char>) -> Option<u32> {
    match req_u64_spec(e, key) {
        Some(n) => if n <= u32::MAX {
            Some(n as u32)
        } else {
            None
        },
        None => None,
    }
}

/// An optional value: unset where absent or `null`.
pub open spec fn opt_value_spec(e: Seq<(Seq<char>, serde_json::Value)>, key: Seq<char>) -> Option<serde_json::Value> {
    match lookup(e, key) {
        Some(v) => if json_is_null_of(v) {
            None
        } else {
            Some(v)
        },
        None => None,
    }
}

/// An optional text field; `None` where the field holds something else.
pub open spec fn opt_string_spec(e: Seq<(Seq<char>, serde_json::Value)>, key: Seq<char>) -> Option<Option<Seq<char>>> {
    match opt_value_spec(e, key) {
        Some(v) => match json_str_of(v) {
            Some(s) => Some(Some(s)),
            None => None,
        },
        None => Some(None),
    }
}

/// An optional boolean field; `None` where the field holds something else.
pub open spec fn opt_bool_spec(e: Seq<(Seq<char>, serde_json::Value)>, key: Seq<char>) -> Option<Option<bool>> {
    match opt_value_spec(e, key) {
        Some(v) => match json_bool_of(v) {
            Some(b) => Some(Some(b)),
            None => None,
        },
        None => Some(None),
    }
}

/// An optional number field; `None` where the field holds something else.
pub open spec fn opt_number_spec(e: Seq<(Seq<char>, serde_json::Value)>, key: Seq<char>) -> Option<Option<serde_json::Number>> {
    match opt_value_spec(e, key) {
        Some(v) => match json_number_of(v) {
            Some(n) => Some(Some(n)),
            None => None,
        },
        None => Some(None),
    }
}

/// An optional unsigned integer field; `None` where the field holds something else.
pub open spec fn opt_u64_spec(e: Seq<(Seq<char>, serde_json::Value)>, key: Seq<char>) -> Option<Option<u64>> {
    match opt_value_spec(e, key) {
        Some(v) => match json_u64_of(v) {
            Some(n) => Some(Some(n)),
            None => None,
        },
        None => Some(None),
    }
}

/// An optional array field; `None` where the field holds something else.
pub open spec fn opt_array_spec(e: Seq<(Seq<char>, serde_json::Value)>, key: Seq<char>) -> Option<Option<Seq<serde_json::Value>>> {
    match opt_value_spec(e, key) {
        Some(v) => match json_array_of(v) {
            Some(items) => Some(Some(items)),
            None => None,
        },
        None => Some(None),
    }
}

/// A required boolean field.
pub open spec fn req_bool_spec(e: Seq<(Seq<char>, serde_json::Value)>, key: Seq<char>) -> Option<bool> {
    match lookup(e, key) {
        Some(v) => json_bool_of(v),
        None => None,
    }
}

/// A required number field.
pub open spec fn req_number_spec(e: Seq<(Seq<char>, serde_json::Value)>, key: Seq<char>) -> Option<serde_json::Number> {
    match lookup(e, key) {
        Some(v) => json_number_of(v),
        None => None,
    }
}

/// Every item is a JSON string.
pub open spec fn all_strings(items: Seq<serde_json::Value>) -> bool {
    forall|i: int| 0 <= i < items.len() ==> (#[trigger] json_str_of(items[i])) is Some
}

/// The texts of JSON strings, in order.
pub open spec fn texts_of(items: Seq<serde_json::Value>) -> Seq<Seq<char>> {
    items.map_values(|x: serde_json::Value| json_str_of(x)->0)
}

/// A JSON value read as an array of strings.
pub open spec fn strings_value_spec(v: serde_json::Value) -> Option<Seq<Seq<char>>> {
    match json_array_of(v) {
        Some(items) => if all_strings(items) {
            Some(texts_of(items))
        } else {
            None
        },
        None => None,
    }
}

/// A required array-of-strings field.
pub open spec fn req_strings_spec(e: Seq<(Seq<char>, serde_json::Value)>, key: Seq<char>) -> Option<Seq<Seq<char>>> {
    match lookup(e, key) {
        Some(v) => strings_value_spec(v),
        None => None,
    }
}

/// An optional array-of-strings field; `None` where the field holds
/// something else.
pub open spec fn opt_strings_spec(e: Seq<(Seq<char>, serde_json::Value)>, key: Seq<char>) -> Option<Option<Seq<Seq<char>>>> {
    match opt_value_spec(e, key) {
        Some(v) => match strings_value_spec(v) {
            Some(ss) => Some(Some(ss)),
            None => None,
        },
        None => Some(None),
    }
}

/// An array-of-strings field that reads as empty where absent; where
/// present (even `null`) it must hold an array of strings.
pub open spec fn default_strings_spec(e: Seq<(Seq<char>, serde_json::Value)>, key: Seq<char>) -> Option<Seq<Seq<char>>> {
    match lookup(e, key) {
        Some(v) => strings_value_spec(v),
        None => Some(Seq::empty()),
    }
}

/// The pairs whose key is none of `known`, in order.
pub open spec fn without_keys_spec(s: Seq<(Seq<char>, serde_json::Value)>, known: Seq<Seq<char>>) -> Seq<(Seq<char>, serde_json::Value)>
    decreases s.len(),
{
    if s.len() == 0 {
        Seq::empty()
    } else {
        let rest = without_keys_spec(s.drop_last(), known);
        if known.contains(s.last().0) {
            rest
        } else {
            rest.push(s.last())
        }
    }
}

/// The views of a list of keys.
pub open spec fn keys_view(known: Seq<&str>) -> Seq<Seq<char>> {
    known.map_values(|k: &str| k@)
}

/// Dropping keys keeps every pair whose key is none of them.
pub proof fn lemma_without_keys_keeps(s: Seq<(Seq<char>, serde_json::Value)>, known: Seq<Seq<char>>)
    ensures
        forall|i: int|
            0 <= i < s.len() && !known.contains(#[trigger] s[i].0) ==> without_keys_spec(s, known).contains(s[i]),
    decreases s.len(),
{
    if s.len() > 0 {
        let d = s.drop_last();
        lemma_without_keys_keeps(d, known);
        let rest = without_keys_spec(d, known);
        let r = without_keys_spec(s, known);
        assert forall|i: int| 0 <= i < s.len() && !known.contains(#[trigger] s[i].0) implies r.contains(s[i]) by {
            if i == s.len() - 1 {
                assert(r == rest.push(s.last()));
                assert(r[rest.len() as int] == s[i]);
            } else {
                assert(d[i] == s[i]);
                assert(!known.contains(d[i].0));
                assert(rest.contains(s[i]));
                let k = choose|k: int| 0 <= k < rest.len() && rest[k] == s[i];
                if known.contains(s.last().0) {
                    assert(r == rest);
                } else {
                    assert(r == rest.push(s.last()));
                    assert(r[k] == rest[k]);
                }
            }
        }
    }
}

/// Dropping keys keeps only pairs of the original, and keys stay distinct.
pub proof fn lemma_without_keys(s: Seq<(Seq<char>, serde_json::Value)>, known: Seq<Seq<char>>)
    requires
        keys_distinct(s),
    ensures
        keys_distinct(without_keys_spec(s, known)),
        forall|j: int| 0 <= j < without_keys_spec(s, known).len() ==>
            s.contains(#[trigger] without_keys_spec(s, known)[j]) && !known.contains(without_keys_spec(s, known)[j].0),
    decreases s.len(),
{
    if s.len() > 0 {
        let d = s.drop_last();
        assert(keys_distinct(d)) by {
            assert forall|a: int, b: int| 0 <= a < b < d.len() implies #[trigger] d[a].0 != #[trigger] d[b].0 by {
                assert(d[a] == s[a]);
                assert(d[b] == s[b]);
            }
        }
        lemma_without_keys(d, known);
        let rest = without_keys_spec(d, known);
        let r = without_keys_spec(s, known);
        assert forall|j: int| 0 <= j < rest.len() implies s.contains(#[trigger] rest[j]) by {
            let k = choose|k: int| 0 <= k < d.len() && d[k] == rest[j];
            assert(s[k] == rest[j]);
        }
        if !known.contains(s.last().0) {
            assert(r == rest.push(s.last()));
            assert forall|a: int, b: int| 0 <= a < b < r.len() implies #[trigger] r[a].0 != #[trigger] r[b].0 by {
                if b == rest.len() {
                    let k = choose|k: int| 0 <= k < d.len() && d[k] == rest[a];
                    assert(s[k] == rest[a]);
                    assert(s[k].0 != s[s.len() - 1].0);
                } else {
                    assert(r[a] == rest[a]);
                    assert(r[b] == rest[b]);
                }
            }
            assert forall|j: int| 0 <= j < r.len() implies s.contains(#[trigger] r[j]) && !known.contains(r[j].0) by {
                if j == rest.len() {
                    assert(s[s.len() - 1] == r[j]);
                } else {
                    assert(r[j] == rest[j]);
                }
            }
        }
    }
}

/// The value of a field, copied.
pub fn field(entries: &Vec<(String, serde_json::Value)>, key: &str) -> (r: Option<serde_json::Value>)
    requires
        keys_distinct(pairs_view(entries@)),
    ensures
        r == field_spec(pairs_view(entries@), key@),
{
    match position_of_key(entries, key) {
        Some(i) => {
            proof {
                lemma_lookup_at(pairs_view(entries@), key@, i as int);
            }
            Some(entries[i].1.clone())
        },
        None => None,
    }
}

/// Reads a required text field.
pub fn req_string(entries: &Vec<(String, serde_json::Value)>, key: &str) -> (r: Option<String>)
    requires
        keys_distinct(pairs_view(entries@)),
    ensures
        opt_str_view(r) == req_string_spec(pairs_view(entries@), key@),
{
    match field(entries, key) {
        Some(v) => json_as_string(&v),
        None => None,
    }
}

/// Reads a required unsigned integer field.
pub fn req_u64(entries: &Vec<(String, serde_json::Value)>, key: &str) -> (r: Option<u64>)
    requires
        keys_distinct(pairs_view(entries@)),
    ensures
        r == req_u64_spec(pairs_view(entries@), key@),
{
    match field(entries, key) {
        Some(v) => json_as_u64(&v),
        None => None,
    }
}

/// Reads a required unsigned integer field that must fit 32 bits.
pub fn req_u32(entries: &Vec<(String, serde_json::Value)>, key: &str) -> (r: Option<u32>)
    requires
        keys_distinct(pairs_view(entries@)),
    ensures
        r == req_u32_spec(pairs_view(entries@), key@),
{
    match req_u64(entries, key) {
        Some(n) => if n <= 0xffff_ffffu64 {
            Some(n as u32)
        } else {
            None
        },
        None => None,
    }
}

/// Reads an optional value: unset where absent or `null`.
pub fn opt_value(entries: &Vec<(String, serde_json::Value)>, key: &str) -> (r: Option<serde_json::Value>)
    requires
        keys_distinct(pairs_view(entries@)),
    ensures
        r == opt_value_spec(pairs_view(entries@), key@),
{
    match field(entries, key) {
        Some(v) => if json_is_null(&v) {
            None
        } else {
            Some(v)
        },
        None => None,
    }
}

/// Reads an optional text field.
pub fn opt_string(entries: &Vec<(String, serde_json::Value)>, key: &str) -> (r: Option<Option<String>>)
    requires
        keys_distinct(pairs_view(entries@)),
    ensures
        match r {
            Some(o) => opt_string_spec(pairs_view(entries@), key@) == Some(opt_str_view(o)),
            None => opt_string_spec(pairs_view(entries@), key@) is None,
        },
{
    match opt_value(entries, key) {
        Some(v) => match json_as_string(&v) {
            Some(s) => Some(Some(s)),
            None => None,
        },
        None => Some(None),
    }
}

/// Reads an optional boolean field.
pub fn opt_bool(entries: &Vec<(String, serde_json::Value)>, key: &str) -> (r: Option<Option<bool>>)
    requires
        keys_distinct(pairs_view(entries@)),
    ensures
        r == opt_bool_spec(pairs_view(entries@), key@),
{
    match opt_value(entries, key) {
        Some(v) => match json_as_bool(&v) {
            Some(b) => Some(Some(b)),
            None => None,
        },
        None => Some(None),
    }
}

/// Reads an optional number field.
pub fn opt_number(entries: &Vec<(String, serde_json::Value)>, key: &str) -> (r: Option<Option<serde_json::Number>>)
    requires
        keys_distinct(pairs_view(entries@)),
    ensures
        r == opt_number_spec(pairs_view(entries@), key@),
{
    match opt_value(entries, key) {
        Some(v) => match json_as_number(&v) {
            Some(n) => Some(Some(n)),
            None => None,
        },
        None => Some(None),
    }
}

/// Reads an optional unsigned integer field.
pub fn opt_u64(entries: &Vec<(String, serde_json::Value)>, key: &str) -> (r: Option<Option<u64>>)
    requires
        keys_distinct(pairs_view(entries@)),
    ensures
        r == opt_u64_spec(pairs_view(entries@), key@),
{
    match opt_value(entries, key) {
        Some(v) => match json_as_u64(&v) {
            Some(n) => Some(Some(n)),
            None => None,
        },
        None => Some(None),
    }
}

/// Reads an optional array field.
pub fn opt_array(entries: &Vec<(String, serde_json::Value)>, key: &str) -> (r: Option<Option<Vec<serde_json::Value>>>)
    requires
        keys_distinct(pairs_view(entries@)),
    ensures
        match r {
            Some(Some(items)) => opt_array_spec(pairs_view(entries@), key@) == Some(Some(items@)),
            Some(None) => opt_array_spec(pairs_view(entries@), key@) == Some(None::<Seq<serde_json::Value>>),
            None => opt_array_spec(pairs_view(entries@), key@) is None,
        },
{
    match opt_value(entries, key) {
        Some(v) => match json_as_array(&v) {
            Some(items) => Some(Some(items)),
            None => None,
        },
        None => Some(None),
    }
}

/// Reads a required boolean field.
pub fn req_bool(entries: &Vec<(String, serde_json::Value)>, key: &str) -> (r: Option<bool>)
    requires
        keys_distinct(pairs_view(entries@)),
    ensures
        r == req_bool_spec(pairs_view(entries@), key@),
{
    match field(entries, key) {
        Some(v) => json_as_bool(&v),
        None => None,
    }
}

/// Reads a required number field.
pub fn req_number(entries: &Vec<(String, serde_json::Value)>, key: &str) -> (r: Option<serde_json::Number>)
    requires
        keys_distinct(pairs_view(entries@)),
    ensures
        r == req_number_spec(pairs_view(entries@), key@),
{
    match field(entries, key) {
        Some(v) => json_as_number(&v),
        None => None,
    }
}

/// Reads a JSON value as an array of strings.
pub fn strings_value(v: &serde_json::Value) -> (r: Option<Vec<String>>)
    ensures
        match r {
            Some(ss) => strings_value_spec(*v) == Some(strings_view(ss@)),
            None => strings_value_spec(*v) is None,
        },
{
    let items = match json_as_array(v) {
        Some(items) => items,
        None => {
            return None;
        },
    };
    let mut out: Vec<String> = Vec::new();
    let mut i: usize = 0;
    while i < items.len()
        invariant
            i <= items@.len(),
            out@.len() == i,
            json_array_of(*v) == Some(items@),
            forall|j: int| 0 <= j < i ==> (#[trigger] json_str_of(items@[j])) is Some,
            forall|j: int| 0 <= j < i ==> Some((#[trigger] out@[j])@) == json_str_of(items@[j]),
        decreases items@.len() - i,
    {
        match json_as_string(&items[i]) {
            Some(s) => {
                out.push(s);
            },
            None => {
                assert(!all_strings(items@));
                return None;
            },
        }
        i = i + 1;
    }
    assert(all_strings(items@));
    assert(strings_view(out@) =~= texts_of(items@));
    Some(out)
}

/// Reads a required array-of-strings field.
pub fn req_strings(entries: &Vec<(String, serde_json::Value)>, key: &str) -> (r: Option<Vec<String>>)
    requires
        keys_distinct(pairs_view(entries@)),
    ensures
        match r {
            Some(ss) => req_strings_spec(pairs_view(entries@), key@) == Some(strings_view(ss@)),
            None => req_strings_spec(pairs_view(entries@), key@) is None,
        },
{
    match field(entries, key) {
        Some(v) => strings_value(&v),
        None => None,
    }
}

/// Reads an optional array-of-strings field.
pub fn opt_strings(entries: &Vec<(String, serde_json::Value)>, key: &str) -> (r: Option<Option<Vec<String>>>)
    requires
        keys_distinct(pairs_view(entries@)),
    ensures
        match r {
            Some(Some(ss)) => opt_strings_spec(pairs_view(entries@), key@) == Some(Some(strings_view(ss@))),
            Some(None) => opt_strings_spec(pairs_view(entries@), key@) == Some(None::<Seq<Seq<char>>>),
            None => opt_strings_spec(pairs_view(entries@), key@) is None,
        },
{
    match opt_value(entries, key) {
        Some(v) => match strings_value(&v) {
            Some(ss) => Some(Some(ss)),
            None => None,
        },
        None => Some(None),
    }
}

/// Reads an array-of-strings field that is empty where absent.
pub fn default_strings(entries: &Vec<(String, serde_json::Value)>, key: &str) -> (r: Option<Vec<String>>)
    requires
        keys_distinct(pairs_view(entries@)),
    ensures
        match r {
            Some(ss) => default_strings_spec(pairs_view(entries@), key@) == Some(strings_view(ss@)),
            None => default_strings_spec(pairs_view(entries@), key@) is None,
        },
{
    match field(entries, key) {
        Some(v) => strings_value(&v),
        None => {
            let out: Vec<String> = Vec::new();
            assert(strings_view(out@) =~= Seq::<Seq<char>>::empty());
            Some(out)
        },
    }
}

fn is_known(known: &[&str], key: &str) -> (b: bool)
    ensures
        b == keys_view(known@).contains(key@),
{
    let mut i: usize = 0;
    while i < known.len()
        invariant
            i <= known@.len(),
            forall|j: int| 0 <= j < i ==> known@[j]@ != key@,
        decreases known@.len() - i,
    {
        if str_eq(known[i], key) {
            assert(keys_view(known@)[i as int] == key@);
            return true;
        }
        i = i + 1;
    }
    assert(!keys_view(known@).contains(key@)) by {
        if keys_view(known@).contains(key@) {
            let j = choose|j: int| 0 <= j < keys_view(known@).len() && keys_view(known@)[j] == key@;
            assert(known@[j]@ == key@);
        }
    }
    false
}

/// The pairs whose key is none of `known`, in order: the fields a type does
/// not name, which it keeps as extra fields.
pub fn without_keys(entries: &Vec<(String, serde_json::Value)>, known: &[&str]) -> (r: JsonMap)
    requires
        keys_distinct(pairs_view(entries@)),
    ensures
        r.pairs() == without_keys_spec(pairs_view(entries@), keys_view(known@)),
{
    let ghost s = pairs_view(entries@);
    let ghost kv = keys_view(known@);
    let mut out: Vec<(String, serde_json::Value)> = Vec::new();
    let mut i: usize = 0;
    assert(s.take(0) =~= Seq::<(Seq<char>, serde_json::Value)>::empty());
    while i < entries.len()
        invariant
            i <= entries@.len(),
            s == pairs_view(entries@),
            kv == keys_view(known@),
            pairs_view(out@) == without_keys_spec(s.take(i as int), kv),
        decreases entries@.len() - i,
    {
        assert(s.take(i + 1).drop_last() =~= s.take(i as int));
        assert(s.take(i + 1).last() == s[i as int]);
        if !is_known(known, entries[i].0.as_str()) {
            let k = entries[i].0.clone();
            let v = entries[i].1.clone();
            out.push((k, v));
            assert(pairs_view(out@) =~= without_keys_spec(s.take(i as int), kv).push(s[i as int]));
        }
        i = i + 1;
    }
    assert(s.take(entries@.len() as int) =~= s);
    proof {
        lemma_without_keys(s, kv);
    }
    JsonMap::from_distinct(out)
}

} // verus!
