//! JSON values as this library builds and reads them.
//!
//! The values themselves are `serde_json::Value`s, opaque to the verifier.
//! Every constructor and accessor of `serde_json` that the library uses goes
//! through one small trusted wrapper in this module, whose contract names the
//! result as a function of the arguments. Everything above these wrappers
//! (field layouts, defaults, which keys are present) is verified.
use vstd::prelude::*;

verus! {

/// `serde_json::Value`, carried as an opaque value.
#[verifier::external_type_specification]
#[verifier::external_body]
pub struct ExJsonValue(serde_json::Value);

/// `serde_json::Number`, carried as an opaque value.
#[verifier::external_type_specification]
#[verifier::external_body]
pub struct ExJsonNumber(serde_json::Number);

/// `serde_json::Error`, carried as an opaque value.
#[verifier::external_type_specification]
#[verifier::external_body]
pub struct ExJsonError(serde_json::Error);

// ---------------------------------------------------------------------------
// Names for what serde_json's constructors and accessors return.
// ---------------------------------------------------------------------------

/// The JSON string `"s"`.
pub uninterp spec fn json_string_value(s: Seq<char>) -> serde_json::Value;

/// The JSON number holding an unsigned integer.
pub uninterp spec fn json_u64_value(n: u64) -> serde_json::Value;

/// The JSON number holding a signed integer.
pub uninterp spec fn json_i64_value(n: i64) -> serde_json::Value;

/// The JSON boolean.
pub uninterp spec fn json_bool_value(b: bool) -> serde_json::Value;

/// The JSON value holding a `serde_json::Number`.
pub uninterp spec fn json_number_value(n: serde_json::Number) -> serde_json::Value;

/// `Value::from(Option<Value>)`: `null` for `None`.
pub uninterp spec fn json_option_value(o: Option<serde_json::Value>) -> serde_json::Value;

/// The JSON array of the given items, in order.
pub uninterp spec fn json_array_value(items: Seq<serde_json::Value>) -> serde_json::Value;

/// The JSON object collected from the given key/value pairs.
pub uninterp spec fn json_object_value(entries: Seq<(Seq<char>, serde_json::Value)>) -> serde_json::Value;

/// `Value::as_str`: the string held by a JSON string.
pub uninterp spec fn json_str_of(v: serde_json::Value) -> Option<Seq<char>>;

/// `Value::as_u64`: the integer held by a JSON number, if it is a non-negative integer.
pub uninterp spec fn json_u64_of(v: serde_json::Value) -> Option<u64>;

/// `Value::as_bool`: the boolean held by a JSON boolean.
pub uninterp spec fn json_bool_of(v: serde_json::Value) -> Option<bool>;

/// The number held by a JSON number.
pub uninterp spec fn json_number_of(v: serde_json::Value) -> Option<serde_json::Number>;

/// `Value::is_null`.
pub uninterp spec fn json_is_null_of(v: serde_json::Value) -> bool;

/// `Value::as_array`: the items of a JSON array, in order.
pub uninterp spec fn json_array_of(v: serde_json::Value) -> Option<Seq<serde_json::Value>>;

/// `Value::as_object`: the key/value pairs of a JSON object, in the map's order.
pub uninterp spec fn json_entries_of(v: serde_json::Value) -> Option<Seq<(Seq<char>, serde_json::Value)>>;

/// `serde_json::from_str::<Value>`: the value a text parses to, `None` where it is no JSON.
pub uninterp spec fn json_parse_of(text: Seq<char>) -> Option<serde_json::Value>;

// ---------------------------------------------------------------------------
// Key/value sequences.
// ---------------------------------------------------------------------------

/// The key/value pairs with each key taken by its view.
pub open spec fn pairs_view(s: Seq<(String, serde_json::Value)>) -> Seq<(Seq<char>, serde_json::Value)> {
    s.map_values(|p: (String, serde_json::Value)| (p.0@, p.1))
}

/// No key occurs twice.
pub open spec fn keys_distinct(s: Seq<(Seq<char>, serde_json::Value)>) -> bool {
    forall|i: int, j: int| 0 <= i < j < s.len() ==> #[trigger] s[i].0 != #[trigger] s[j].0
}

/// The key occurs in the pairs.
pub open spec fn has_key(s: Seq<(Seq<char>, serde_json::Value)>, k: Seq<char>) -> bool {
    exists|i: int| 0 <= i < s.len() && #[trigger] s[i].0 == k
}

/// The key occurs at most once in the pairs.
pub open spec fn key_unique(s: Seq<(Seq<char>, serde_json::Value)>, k: Seq<char>) -> bool {
    forall|i: int, j: int| 0 <= i < j < s.len() && #[trigger] s[i].0 == k ==> #[trigger] s[j].0 != k
}

/// The value stored under a key, if the key occurs.
pub open spec fn lookup(s: Seq<(Seq<char>, serde_json::Value)>, k: Seq<char>) -> Option<serde_json::Value> {
    if has_key(s, k) {
        Some(s[choose|i: int| 0 <= i < s.len() && #[trigger] s[i].0 == k].1)
    } else {
        None
    }
}

/// The position of a key that occurs in the pairs.
pub open spec fn key_index(s: Seq<(Seq<char>, serde_json::Value)>, k: Seq<char>) -> int {
    choose|i: int| 0 <= i < s.len() && #[trigger] s[i].0 == k
}

/// The pairs after storing `v` under `k`: the pair for `k` is replaced in
/// place where `k` occurs, else the new pair is appended.
pub open spec fn insert_pairs(s: Seq<(Seq<char>, serde_json::Value)>, k: Seq<char>, v: serde_json::Value) -> Seq<(Seq<char>, serde_json::Value)> {
    if has_key(s, k) {
        s.update(key_index(s, k), (k, v))
    } else {
        s.push((k, v))
    }
}

/// Where keys are distinct, the key at position `i` is found at `i`.
pub proof fn lemma_key_index_at(s: Seq<(Seq<char>, serde_json::Value)>, k: Seq<char>, i: int)
    requires
        keys_distinct(s),
        0 <= i < s.len(),
        s[i].0 == k,
    ensures
        key_index(s, k) == i,
{
    assert(has_key(s, k));
    let j = key_index(s, k);
    if j != i {
        if j < i {
            assert(s[j].0 != s[i].0);
        } else {
            assert(s[i].0 != s[j].0);
        }
    }
}

/// Where keys are distinct, the value under the key at position `i` is `s[i].1`.
pub proof fn lemma_lookup_at(s: Seq<(Seq<char>, serde_json::Value)>, k: Seq<char>, i: int)
    requires
        keys_distinct(s),
        0 <= i < s.len(),
        s[i].0 == k,
    ensures
        lookup(s, k) == Some(s[i].1),
{
    assert(has_key(s, k));
    let j = choose|j: int| 0 <= j < s.len() && #[trigger] s[j].0 == k;
    if j != i {
        if j < i {
            assert(s[j].0 != s[i].0);
        } else {
            assert(s[i].0 != s[j].0);
        }
    }
}

// ---------------------------------------------------------------------------
// Trusted wrappers around serde_json.
// ---------------------------------------------------------------------------

/// Calls `Value::from(&str)`, which builds `Value::String`; the result is named
/// `json_string_value` of the text. `Value::as_str` gives the text back, and
/// the value is not `null`.
#[verifier::external_body]
pub(crate) fn json_string(s: &str) -> (r: serde_json::Value)
    ensures
        r == json_string_value(s@),
        json_str_of(r) == Some(s@),
        !json_is_null_of(r),
{
    serde_json::Value::from(s)
}

/// Calls `Value::from(u64)`; the result is named `json_u64_value` of the
/// integer, and `Value::as_u64` gives the integer back.
#[verifier::external_body]
pub(crate) fn json_u64(n: u64) -> (r: serde_json::Value)
    ensures
        r == json_u64_value(n),
        json_u64_of(r) == Some(n),
{
    serde_json::Value::from(n)
}

/// Calls `Value::from(i64)`; the result is named `json_i64_value` of the integer.
#[verifier::external_body]
pub(crate) fn json_i64(n: i64) -> (r: serde_json::Value)
    ensures
        r == json_i64_value(n),
{
    serde_json::Value::from(n)
}

/// Calls `Value::from(bool)`; the result is named `json_bool_value` of the
/// boolean, and `Value::as_bool` gives the boolean back.
#[verifier::external_body]
pub(crate) fn json_bool(b: bool) -> (r: serde_json::Value)
    ensures
        r == json_bool_value(b),
        json_bool_of(r) == Some(b),
{
    serde_json::Value::from(b)
}

/// Calls `Value::from(Number)`, which builds `Value::Number`; the result is
/// named `json_number_value` of the number, which the value holds.
#[verifier::external_body]
pub(crate) fn json_number(n: serde_json::Number) -> (r: serde_json::Value)
    ensures
        r == json_number_value(n),
        json_number_of(r) == Some(n),
{
    serde_json::Value::from(n)
}

/// Calls `Value::from(Option<Value>)`, which gives `Value::Null` for `None`
/// and the value itself for `Some` (the source converts `Some(v)` with
/// `Into::into`, the identity on `Value`); `Value::is_null` holds of the
/// result for `None`.
#[verifier::external_body]
pub(crate) fn json_from_option(o: Option<serde_json::Value>) -> (r: serde_json::Value)
    ensures
        r == json_option_value(o),
        o matches Some(v) ==> r == v,
        o is None ==> json_is_null_of(r),
{
    serde_json::Value::from(o)
}

/// Calls `Value::from(Vec<Value>)`, which builds `Value::Array` of the items in
/// order; the result is named `json_array_value` of the items, and
/// `Value::as_array` gives the items back.
#[verifier::external_body]
pub(crate) fn json_array(items: Vec<serde_json::Value>) -> (r: serde_json::Value)
    ensures
        r == json_array_value(items@),
        json_array_of(r) == Some(items@),
{
    serde_json::Value::from(items)
}

/// Calls `Value::from_iter` on key/value pairs, which collects them into a
/// `Value::Object`; the result is named `json_object_value` of the pairs.
/// `Value::as_object` then gives a map, which holds under each key that
/// occurs once among the pairs the value paired with it.
#[verifier::external_body]
pub(crate) fn json_object(entries: Vec<(String, serde_json::Value)>) -> (r: serde_json::Value)
    ensures
        r == json_object_value(pairs_view(entries@)),
        json_entries_of(r) is Some,
        forall|k: Seq<char>| key_unique(pairs_view(entries@), k) ==> #[trigger] lookup(json_entries_of(r)->0, k) == lookup(pairs_view(entries@), k),
{
    <serde_json::Value as std::iter::FromIterator<(String, serde_json::Value)>>::from_iter(entries)
}

/// `Value` derives `Clone`: a clone equals the original.
pub assume_specification [<serde_json::Value as Clone>::clone] (v: &serde_json::Value) -> (r: serde_json::Value)
    ensures
        r == *v,
;

/// `Number` derives `Clone`: a clone equals the original.
pub assume_specification [<serde_json::Number as Clone>::clone] (n: &serde_json::Number) -> (r: serde_json::Number)
    ensures
        r == *n,
;

/// Calls `Value::as_str` and copies the text; the result is named `json_str_of`.
#[verifier::external_body]
pub(crate) fn json_as_string(v: &serde_json::Value) -> (r: Option<String>)
    ensures
        match r {
            Some(s) => json_str_of(*v) == Some(s@),
            None => json_str_of(*v) is None,
        },
{
    match v.as_str() {
        Some(s) => Some(s.to_string()),
        None => None,
    }
}

/// Calls `Value::as_u64`; the result is named `json_u64_of`.
#[verifier::external_body]
pub(crate) fn json_as_u64(v: &serde_json::Value) -> (r: Option<u64>)
    ensures
        r == json_u64_of(*v),
{
    v.as_u64()
}

/// Calls `Value::as_bool`; the result is named `json_bool_of`.
#[verifier::external_body]
pub(crate) fn json_as_bool(v: &serde_json::Value) -> (r: Option<bool>)
    ensures
        r == json_bool_of(*v),
{
    v.as_bool()
}

/// Tells `Value::Number` from the other variants and copies the number; the
/// result is named `json_number_of`.
#[verifier::external_body]
pub(crate) fn json_as_number(v: &serde_json::Value) -> (r: Option<serde_json::Number>)
    ensures
        r == json_number_of(*v),
{
    match v {
        serde_json::Value::Number(n) => Some(n.clone()),
        _ => None,
    }
}

/// Calls `Value::is_null`; the result is named `json_is_null_of`.
#[verifier::external_body]
pub(crate) fn json_is_null(v: &serde_json::Value) -> (r: bool)
    ensures
        r == json_is_null_of(*v),
{
    v.is_null()
}

/// Calls `Value::as_array` and copies the items; the result is named `json_array_of`.
#[verifier::external_body]
pub(crate) fn json_as_array(v: &serde_json::Value) -> (r: Option<Vec<serde_json::Value>>)
    ensures
        match r {
            Some(items) => json_array_of(*v) == Some(items@),
            None => json_array_of(*v) is None,
        },
{
    v.as_array().cloned()
}

/// Calls `Value::as_object` and copies its pairs in the map's order; the
/// result is named `json_entries_of`. A map holds each key once.
#[verifier::external_body]
pub(crate) fn json_as_entries(v: &serde_json::Value) -> (r: Option<Vec<(String, serde_json::Value)>>)
    ensures
        match r {
            Some(e) => json_entries_of(*v) == Some(pairs_view(e@)) && keys_distinct(pairs_view(e@)),
            None => json_entries_of(*v) is None,
        },
{
    match v.as_object() {
        Some(m) => Some(m.clone().into_iter().collect()),
        None => None,
    }
}

/// Calls `serde_json::from_str::<Value>`; the value is named `json_parse_of`
/// of the text, and the error is passed on unchanged.
#[verifier::external_body]
pub(crate) fn json_parse(text: &str) -> (r: Result<serde_json::Value, serde_json::Error>)
    ensures
        match r {
            Ok(v) => json_parse_of(text@) == Some(v),
            Err(_) => json_parse_of(text@) is None,
        },
{
    serde_json::from_str::<serde_json::Value>(text)
}

/// Calls `serde::de::Error::custom` for `serde_json::Error`, which makes a
/// data error carrying the message. Nothing is stated of the error value.
#[verifier::external_body]
pub(crate) fn json_data_error(message: &str) -> (r: serde_json::Error)
{
    <serde_json::Error as serde::de::Error>::custom(message)
}

// ---------------------------------------------------------------------------
// Verified helpers over key/value pairs.
// ---------------------------------------------------------------------------

/// Text equality.
pub fn str_eq(a: &str, b: &str) -> (r: bool)
    ensures
        r == (a@ == b@),
{
    let x = a.to_string();
    let y = b.to_string();
    x == y
}

/// The position of the first pair with the given key.
pub fn position_of_key(entries: &Vec<(String, serde_json::Value)>, key: &str) -> (r: Option<usize>)
    ensures
        match r {
            Some(i) => i < entries@.len() && entries@[i as int].0@ == key@
                && forall|j: int| 0 <= j < i ==> entries@[j].0@ != key@,
            None => !has_key(pairs_view(entries@), key@),
        },
{
    let mut i: usize = 0;
    while i < entries.len()
        invariant
            i <= entries@.len(),
            forall|j: int| 0 <= j < i ==> entries@[j].0@ != key@,
        decreases entries@.len() - i,
    {
        if str_eq(entries[i].0.as_str(), key) {
            return Some(i);
        }
        i = i + 1;
    }
    proof {
        let s = pairs_view(entries@);
        if has_key(s, key@) {
            let j = choose|j: int| 0 <= j < s.len() && #[trigger] s[j].0 == key@;
            assert(s[j].0 == entries@[j].0@);
        }
    }
    None
}

/// Copies the pairs.
pub fn clone_pairs(entries: &Vec<(String, serde_json::Value)>) -> (r: Vec<(String, serde_json::Value)>)
    ensures
        pairs_view(r@) == pairs_view(entries@),
        r@.len() == entries@.len(),
{
    let mut out: Vec<(String, serde_json::Value)> = Vec::new();
    let mut i: usize = 0;
    while i < entries.len()
        invariant
            i <= entries@.len(),
            out@.len() == i,
            forall|j: int| 0 <= j < i ==> (#[trigger] out@[j]).0@ == entries@[j].0@ && out@[j].1 == entries@[j].1,
        decreases entries@.len() - i,
    {
        let k = entries[i].0.clone();
        let v = entries[i].1.clone();
        out.push((k, v));
        i = i + 1;
    }
    assert(pairs_view(out@) =~= pairs_view(entries@));
    out
}



/// The view of an optional text.
pub open spec fn opt_str_view(o: Option<String>) -> Option<Seq<char>> {
    match o {
        Some(s) => Some(s@),
        None => None,
    }
}

/// Copies an optional text.
pub fn clone_opt_string(o: &Option<String>) -> (r: Option<String>)
    ensures
        opt_str_view(r) == opt_str_view(*o),
{
    match o {
        Some(s) => Some(s.clone()),
        None => None,
    }
}

/// Copies an optional JSON value.
pub fn clone_opt_value(o: &Option<serde_json::Value>) -> (r: Option<serde_json::Value>)
    ensures
        r == *o,
{
    match o {
        Some(v) => Some(v.clone()),
        None => None,
    }
}

// ---------------------------------------------------------------------------
// A JSON object map keyed by text.
// ---------------------------------------------------------------------------

/// A map from text keys to JSON values in which each key occurs once; it is
/// written out as a JSON object.
#[derive(Debug)]
pub struct JsonMap {
    entries: Vec<(String, serde_json::Value)>,
}

impl JsonMap {
    #[verifier::type_invariant]
    spec fn wf(self) -> bool {
        keys_distinct(pairs_view(self.entries@))
    }

    /// The key/value pairs, in insertion order.
    pub closed spec fn pairs(self) -> Seq<(Seq<char>, serde_json::Value)> {
        pairs_view(self.entries@)
    }

    /// An empty map.
    pub fn new() -> (m: JsonMap)
        ensures
            m.pairs() == Seq::<(Seq<char>, serde_json::Value)>::empty(),
    {
        let m = JsonMap { entries: Vec::new() };
        assert(m.pairs() =~= Seq::<(Seq<char>, serde_json::Value)>::empty());
        m
    }

    /// A map of pairs whose keys are distinct.
    pub(crate) fn from_distinct(entries: Vec<(String, serde_json::Value)>) -> (m: JsonMap)
        requires
            keys_distinct(pairs_view(entries@)),
        ensures
            m.pairs() == pairs_view(entries@),
    {
        JsonMap { entries }
    }

    /// Number of keys.
    pub fn len(&self) -> (n: usize)
        ensures
            n == self.pairs().len(),
    {
        self.entries.len()
    }

    /// Whether the map holds no key.
    pub fn is_empty(&self) -> (b: bool)
        ensures
            b == (self.pairs().len() == 0),
    {
        self.entries.len() == 0
    }

    /// The value stored under `key`, copied.
    pub fn get(&self, key: &str) -> (r: Option<serde_json::Value>)
        ensures
            r == lookup(self.pairs(), key@),
    {
        proof {
            use_type_invariant(self);
        }
        match position_of_key(&self.entries, key) {
            Some(i) => {
                proof {
                    lemma_lookup_at(self.pairs(), key@, i as int);
                }
                Some(self.entries[i].1.clone())
            },
            None => None,
        }
    }

    /// Whether `key` is stored.
    pub fn contains_key(&self, key: &str) -> (b: bool)
        ensures
            b == has_key(self.pairs(), key@),
    {
        match position_of_key(&self.entries, key) {
            Some(i) => {
                assert(self.pairs()[i as int].0 == key@);
                true
            },
            None => false,
        }
    }

    /// Stores `value` under `key`, replacing and returning what was stored there.
    pub fn insert(&mut self, key: String, value: serde_json::Value) -> (prev: Option<serde_json::Value>)
        ensures
            prev == lookup(old(self).pairs(), key@),
            lookup(final(self).pairs(), key@) == Some(value),
            forall|k: Seq<char>| k != key@ ==> #[trigger] lookup(final(self).pairs(), k) == lookup(old(self).pairs(), k),
            final(self).pairs() == insert_pairs(old(self).pairs(), key@, value),
    {
        proof {
            use_type_invariant(&*self);
        }
        let ghost old_pairs = self.pairs();
        let mut entries: Vec<(String, serde_json::Value)> = Vec::new();
        std::mem::swap(&mut entries, &mut self.entries);
        let prev = match position_of_key(&entries, key.as_str()) {
            Some(i) => {
                proof {
                    lemma_lookup_at(old_pairs, key@, i as int);
                    lemma_key_index_at(old_pairs, key@, i as int);
                    assert(has_key(old_pairs, key@));
                }
                let old_value = entries[i].1.clone();
                let ghost before = entries@;
                entries.set(i, (key, value));
                let ghost new_pairs = pairs_view(entries@);
                assert(new_pairs =~= old_pairs.update(i as int, (before[i as int].0@, value)));
                assert(keys_distinct(new_pairs)) by {
                    assert forall|a: int, b: int| 0 <= a < b < new_pairs.len() implies
                        #[trigger] new_pairs[a].0 != #[trigger] new_pairs[b].0 by {
                        assert(new_pairs[a].0 == old_pairs[a].0);
                        assert(new_pairs[b].0 == old_pairs[b].0);
                    }
                }
                proof {
                    lemma_lookup_at(new_pairs, key@, i as int);
                    assert forall|k: Seq<char>| k != key@ implies
                        #[trigger] lookup(new_pairs, k) == lookup(old_pairs, k) by {
                        if has_key(old_pairs, k) {
                            let j = choose|j: int| 0 <= j < old_pairs.len() && #[trigger] old_pairs[j].0 == k;
                            lemma_lookup_at(old_pairs, k, j);
                            assert(new_pairs[j].0 == k);
                            lemma_lookup_at(new_pairs, k, j);
                        } else {
                            if has_key(new_pairs, k) {
                                let j = choose|j: int| 0 <= j < new_pairs.len() && #[trigger] new_pairs[j].0 == k;
                                assert(old_pairs[j].0 == k);
                            }
                        }
                    }
                }
                Some(old_value)
            },
            None => {
                entries.push((key, value));
                let ghost new_pairs = pairs_view(entries@);
                assert(new_pairs =~= old_pairs.push((key@, value)));
                assert(keys_distinct(new_pairs)) by {
                    assert forall|a: int, b: int| 0 <= a < b < new_pairs.len() implies
                        #[trigger] new_pairs[a].0 != #[trigger] new_pairs[b].0 by {
                        if b == old_pairs.len() {
                            assert(old_pairs[a].0 != key@);
                        } else {
                            assert(new_pairs[a].0 == old_pairs[a].0);
                            assert(new_pairs[b].0 == old_pairs[b].0);
                        }
                    }
                }
                proof {
                    lemma_lookup_at(new_pairs, key@, old_pairs.len() as int);
                    assert forall|k: Seq<char>| k != key@ implies
                        #[trigger] lookup(new_pairs, k) == lookup(old_pairs, k) by {
                        if has_key(old_pairs, k) {
                            let j = choose|j: int| 0 <= j < old_pairs.len() && #[trigger] old_pairs[j].0 == k;
                            lemma_lookup_at(old_pairs, k, j);
                            assert(new_pairs[j].0 == k);
                            lemma_lookup_at(new_pairs, k, j);
                        } else {
                            if has_key(new_pairs, k) {
                                let j = choose|j: int| 0 <= j < new_pairs.len() && #[trigger] new_pairs[j].0 == k;
                                if j < old_pairs.len() {
                                    assert(old_pairs[j].0 == k);
                                }
                            }
                        }
                    }
                }
                None
            },
        };
        self.entries = entries;
        prev
    }

    /// The pairs, copied, in insertion order.
    pub fn to_pairs(&self) -> (r: Vec<(String, serde_json::Value)>)
        ensures
            pairs_view(r@) == self.pairs(),
    {
        clone_pairs(&self.entries)
    }


    /// The map written as a JSON object.
    pub fn to_json_value(&self) -> (r: serde_json::Value)
        ensures
            r == json_object_value(self.pairs()),
    {
        json_object(clone_pairs(&self.entries))
    }
}

impl Clone for JsonMap {
    /// A copy holding the same pairs.
    fn clone(&self) -> (r: JsonMap)
        ensures
            r.pairs() == self.pairs(),
    {
        proof {
            use_type_invariant(self);
        }
        JsonMap { entries: clone_pairs(&self.entries) }
    }
}

} // verus!
