//! The entries of a JSON request body: one entry per set field, in field
//! order, and the helpers that append them.
use vstd::prelude::*;

use crate::json::{
    has_key, json_array, keys_distinct, lemma_lookup_at, lookup, json_array_value, json_bool, json_bool_value, json_number,
    json_number_value, json_string, json_string_value, json_u64, json_u64_value, opt_str_view,
    pairs_view, JsonMap,
};
use crate::text::strings_view;

verus! {

/// A text entry where the text is set, else nothing.
pub open spec fn text_entry(key: Seq<char>, o: Option<Seq<char>>) -> Seq<(Seq<char>, serde_json::Value)> {
    match o {
        Some(s) => seq![(key, json_string_value(s))],
        None => Seq::empty(),
    }
}

/// An unsigned entry where the number is set, else nothing.
pub open spec fn u32_entry(key: Seq<char>, o: Option<u32>) -> Seq<(Seq<char>, serde_json::Value)> {
    match o {
        Some(n) => seq![(key, json_u64_value(n as u64))],
        None => Seq::empty(),
    }
}

/// A boolean entry where the flag is set, else nothing.
pub open spec fn bool_entry(key: Seq<char>, o: Option<bool>) -> Seq<(Seq<char>, serde_json::Value)> {
    match o {
        Some(b) => seq![(key, json_bool_value(b))],
        None => Seq::empty(),
    }
}

/// A JSON entry where the value is set, else nothing.
pub open spec fn value_entry(key: Seq<char>, o: Option<serde_json::Value>) -> Seq<(Seq<char>, serde_json::Value)> {
    match o {
        Some(v) => seq![(key, v)],
        None => Seq::empty(),
    }
}

/// A number entry where the number is set, else nothing.
pub open spec fn number_entry(key: Seq<char>, o: Option<serde_json::Number>) -> Seq<(Seq<char>, serde_json::Value)> {
    match o {
        Some(n) => seq![(key, json_number_value(n))],
        None => Seq::empty(),
    }
}

/// The JSON array of the texts.
pub open spec fn strings_json(ss: Seq<Seq<char>>) -> serde_json::Value {
    json_array_value(ss.map_values(|s: Seq<char>| json_string_value(s)))
}

/// A text array entry where the texts are set, else nothing.
pub open spec fn strings_entry(key: Seq<char>, o: Option<Seq<Seq<char>>>) -> Seq<(Seq<char>, serde_json::Value)> {
    match o {
        Some(ss) => seq![(key, strings_json(ss))],
        None => Seq::empty(),
    }
}

/// A JSON array entry where the items are set, else nothing.
pub open spec fn values_entry(key: Seq<char>, o: Option<Seq<serde_json::Value>>) -> Seq<(Seq<char>, serde_json::Value)> {
    match o {
        Some(vs) => seq![(key, json_array_value(vs))],
        None => Seq::empty(),
    }
}

/// A JSON object entry where the map is set, else nothing.
pub open spec fn map_entry(key: Seq<char>, o: Option<Seq<(Seq<char>, serde_json::Value)>>) -> Seq<(Seq<char>, serde_json::Value)> {
    match o {
        Some(pairs) => seq![(key, crate::json::json_object_value(pairs))],
        None => Seq::empty(),
    }
}

/// Every entry of a part has the given key.
pub open spec fn keyed_by(part: Seq<(Seq<char>, serde_json::Value)>, key: Seq<char>) -> bool {
    forall|i: int| 0 <= i < part.len() ==> #[trigger] part[i].0 == key
}

/// A key occurs in a part whose entries all have another key only where the
/// two are equal.
pub proof fn lemma_keyed_by(part: Seq<(Seq<char>, serde_json::Value)>, key: Seq<char>, k: Seq<char>)
    requires
        keyed_by(part, key),
    ensures
        has_key(part, k) ==> key == k,
{
    if has_key(part, k) {
        let i = choose|i: int| 0 <= i < part.len() && #[trigger] part[i].0 == k;
        assert(part[i].0 == key);
    }
}

/// A key occurs in two parts put together where it occurs in either.
pub proof fn lemma_has_key_concat(a: Seq<(Seq<char>, serde_json::Value)>, b: Seq<(Seq<char>, serde_json::Value)>, k: Seq<char>)
    ensures
        has_key(a + b, k) <==> (has_key(a, k) || has_key(b, k)),
{
    let s = a + b;
    if has_key(s, k) {
        let i = choose|i: int| 0 <= i < s.len() && #[trigger] s[i].0 == k;
        if i < a.len() {
            assert(a[i] == s[i]);
        } else {
            assert(b[i - a.len()] == s[i]);
        }
    }
    if has_key(a, k) {
        let i = choose|i: int| 0 <= i < a.len() && #[trigger] a[i].0 == k;
        assert(s[i] == a[i]);
    }
    if has_key(b, k) {
        let i = choose|i: int| 0 <= i < b.len() && #[trigger] b[i].0 == k;
        assert(s[i + a.len()] == b[i]);
    }
}

/// Every entry of `s` has a key whose position, by `pos`, lies in
/// `[lo, hi)`, and no key occurs twice.
#[verifier::opaque]
pub open spec fn keyed_within(
    s: Seq<(Seq<char>, serde_json::Value)>,
    pos: spec_fn(Seq<char>) -> int,
    lo: int,
    hi: int,
) -> bool {
    &&& forall|i: int| 0 <= i < s.len() ==> lo <= #[trigger] pos(s[i].0) < hi
    &&& keys_distinct(s)
}

/// The value stored under a key, if the key occurs; the same as `lookup`,
/// kept abstract outside this module so that chains of parts stay cheap to
/// reason about.
pub closed spec fn value_under(s: Seq<(Seq<char>, serde_json::Value)>, k: Seq<char>) -> Option<serde_json::Value> {
    lookup(s, k)
}

/// `value_under` is `lookup`.
pub proof fn lemma_value_under(s: Seq<(Seq<char>, serde_json::Value)>, k: Seq<char>)
    ensures
        value_under(s, k) == lookup(s, k),
{
}

/// Keys of parts kept within ranges are distinct.
pub proof fn lemma_within_distinct(
    s: Seq<(Seq<char>, serde_json::Value)>,
    pos: spec_fn(Seq<char>) -> int,
    lo: int,
    hi: int,
)
    requires
        keyed_within(s, pos, lo, hi),
    ensures
        keys_distinct(s),
{
    reveal(keyed_within);
}

/// An entry made for a key (one pair, or none) lies at that key's position,
/// and looking the key up gives its value.
pub proof fn lemma_entry_within(
    e: Seq<(Seq<char>, serde_json::Value)>,
    key: Seq<char>,
    pos: spec_fn(Seq<char>) -> int,
)
    requires
        e.len() <= 1,
        keyed_by(e, key),
    ensures
        keyed_within(e, pos, pos(key), pos(key) + 1),
        value_under(e, key) == (if e.len() == 1 { Some(e[0].1) } else { None::<serde_json::Value> }),
{
    reveal(keyed_within);
    if e.len() == 1 {
        assert(e[0].0 == key);
        lemma_lookup_at(e, key, 0);
    } else {
        assert(!has_key(e, key));
    }
}

/// Putting together parts whose keys lie in adjacent ranges keeps keys
/// distinct, and a key is looked up in the part whose range holds it.
pub proof fn lemma_within_concat(
    a: Seq<(Seq<char>, serde_json::Value)>,
    b: Seq<(Seq<char>, serde_json::Value)>,
    pos: spec_fn(Seq<char>) -> int,
    lo: int,
    mid: int,
    hi: int,
)
    requires
        lo <= mid <= hi,
        keyed_within(a, pos, lo, mid),
        keyed_within(b, pos, mid, hi),
    ensures
        keyed_within(a + b, pos, lo, hi),
        forall|k: Seq<char>| lo <= pos(k) < mid ==> #[trigger] value_under(a + b, k) == value_under(a, k),
        forall|k: Seq<char>| mid <= pos(k) < hi ==> #[trigger] value_under(a + b, k) == value_under(b, k),
{
    reveal(keyed_within);
    let s = a + b;
    assert forall|i: int| 0 <= i < s.len() implies lo <= #[trigger] pos(s[i].0) < hi by {
        if i < a.len() {
            assert(s[i] == a[i]);
            assert(lo <= pos(a[i].0) < mid);
        } else {
            assert(s[i] == b[i - a.len()]);
            assert(mid <= pos(b[i - a.len()].0) < hi);
        }
    }
    assert forall|i: int, j: int| 0 <= i < j < s.len() implies #[trigger] s[i].0 != #[trigger] s[j].0 by {
        if j < a.len() {
            assert(s[i] == a[i] && s[j] == a[j]);
        } else if i >= a.len() {
            assert(s[i] == b[i - a.len()] && s[j] == b[j - a.len()]);
        } else {
            assert(s[i] == a[i] && s[j] == b[j - a.len()]);
            assert(pos(a[i].0) < mid);
            assert(mid <= pos(b[j - a.len()].0));
        }
    }
    assert forall|k: Seq<char>| lo <= pos(k) < mid implies #[trigger] lookup(a + b, k) == lookup(a, k) by {
        if has_key(a, k) {
            let i = choose|i: int| 0 <= i < a.len() && #[trigger] a[i].0 == k;
            assert(s[i] == a[i]);
            lemma_lookup_at(a, k, i);
            lemma_lookup_at(s, k, i);
        } else {
            if has_key(s, k) {
                let i = choose|i: int| 0 <= i < s.len() && #[trigger] s[i].0 == k;
                if i < a.len() {
                    assert(s[i] == a[i]);
                } else {
                    assert(s[i] == b[i - a.len()]);
                    assert(mid <= pos(b[i - a.len()].0));
                }
            }
        }
    }
    assert forall|k: Seq<char>| mid <= pos(k) < hi implies #[trigger] lookup(a + b, k) == lookup(b, k) by {
        if has_key(b, k) {
            let i = choose|i: int| 0 <= i < b.len() && #[trigger] b[i].0 == k;
            assert(s[i + a.len()] == b[i]);
            lemma_lookup_at(b, k, i);
            lemma_lookup_at(s, k, i + a.len());
        } else {
            if has_key(s, k) {
                let i = choose|i: int| 0 <= i < s.len() && #[trigger] s[i].0 == k;
                if i < a.len() {
                    assert(s[i] == a[i]);
                    assert(pos(a[i].0) < mid);
                } else {
                    assert(s[i] == b[i - a.len()]);
                }
            }
        }
    }
}

/// Appends a text entry.
pub fn push_text(entries: &mut Vec<(String, serde_json::Value)>, key: &str, o: &Option<String>)
    ensures
        pairs_view(final(entries)@) == pairs_view(old(entries)@) + text_entry(key@, opt_str_view(*o)),
{
    match o {
        Some(s) => {
            entries.push((key.to_string(), json_string(s.as_str())));
        },
        None => {},
    }
    assert(pairs_view(entries@) =~= pairs_view(old(entries)@) + text_entry(key@, opt_str_view(*o)));
}

/// Appends an unsigned entry.
pub fn push_u32(entries: &mut Vec<(String, serde_json::Value)>, key: &str, o: Option<u32>)
    ensures
        pairs_view(final(entries)@) == pairs_view(old(entries)@) + u32_entry(key@, o),
{
    match o {
        Some(n) => {
            entries.push((key.to_string(), json_u64(n as u64)));
        },
        None => {},
    }
    assert(pairs_view(entries@) =~= pairs_view(old(entries)@) + u32_entry(key@, o));
}

/// Appends a boolean entry.
pub fn push_bool(entries: &mut Vec<(String, serde_json::Value)>, key: &str, o: Option<bool>)
    ensures
        pairs_view(final(entries)@) == pairs_view(old(entries)@) + bool_entry(key@, o),
{
    match o {
        Some(b) => {
            entries.push((key.to_string(), json_bool(b)));
        },
        None => {},
    }
    assert(pairs_view(entries@) =~= pairs_view(old(entries)@) + bool_entry(key@, o));
}

/// Appends a JSON entry.
pub fn push_value(entries: &mut Vec<(String, serde_json::Value)>, key: &str, o: &Option<serde_json::Value>)
    ensures
        pairs_view(final(entries)@) == pairs_view(old(entries)@) + value_entry(key@, *o),
{
    match o {
        Some(v) => {
            entries.push((key.to_string(), v.clone()));
        },
        None => {},
    }
    assert(pairs_view(entries@) =~= pairs_view(old(entries)@) + value_entry(key@, *o));
}

/// Appends a number entry.
pub fn push_number(entries: &mut Vec<(String, serde_json::Value)>, key: &str, o: &Option<serde_json::Number>)
    ensures
        pairs_view(final(entries)@) == pairs_view(old(entries)@) + number_entry(key@, *o),
{
    match o {
        Some(n) => {
            entries.push((key.to_string(), json_number(n.clone())));
        },
        None => {},
    }
    assert(pairs_view(entries@) =~= pairs_view(old(entries)@) + number_entry(key@, *o));
}

/// The JSON array of the texts.
pub fn strings_to_json(ss: &Vec<String>) -> (r: serde_json::Value)
    ensures
        r == strings_json(strings_view(ss@)),
{
    let ghost sv = strings_view(ss@);
    let mut items: Vec<serde_json::Value> = Vec::new();
    let mut i: usize = 0;
    while i < ss.len()
        invariant
            i <= ss@.len(),
            sv == strings_view(ss@),
            items@ =~= sv.subrange(0, i as int).map_values(|s: Seq<char>| json_string_value(s)),
        decreases ss@.len() - i,
    {
        items.push(json_string(ss[i].as_str()));
        i = i + 1;
    }
    assert(sv.subrange(0, ss@.len() as int) =~= sv);
    json_array(items)
}

/// Appends a text array entry.
pub fn push_strings(entries: &mut Vec<(String, serde_json::Value)>, key: &str, o: &Option<Vec<String>>)
    ensures
        pairs_view(final(entries)@) == pairs_view(old(entries)@) + strings_entry(
            key@,
            match *o {
                Some(v) => Some(strings_view(v@)),
                None => None,
            },
        ),
{
    match o {
        Some(v) => {
            entries.push((key.to_string(), strings_to_json(v)));
        },
        None => {},
    }
    assert(pairs_view(entries@) =~= pairs_view(old(entries)@) + strings_entry(
        key@,
        match *o {
            Some(v) => Some(strings_view(v@)),
            None => None,
        },
    ));
}

/// Appends a JSON array entry.
pub fn push_values(entries: &mut Vec<(String, serde_json::Value)>, key: &str, o: &Option<Vec<serde_json::Value>>)
    ensures
        pairs_view(final(entries)@) == pairs_view(old(entries)@) + values_entry(
            key@,
            match *o {
                Some(v) => Some(v@),
                None => None,
            },
        ),
{
    match o {
        Some(v) => {
            let c = v.clone();
            assert(c@ =~= v@);
            entries.push((key.to_string(), json_array(c)));
        },
        None => {},
    }
    assert(pairs_view(entries@) =~= pairs_view(old(entries)@) + values_entry(
        key@,
        match *o {
            Some(v) => Some(v@),
            None => None,
        },
    ));
}

/// Appends a JSON object entry.
pub fn push_map(entries: &mut Vec<(String, serde_json::Value)>, key: &str, o: &Option<JsonMap>)
    ensures
        pairs_view(final(entries)@) == pairs_view(old(entries)@) + map_entry(
            key@,
            match *o {
                Some(m) => Some(m.pairs()),
                None => None,
            },
        ),
{
    match o {
        Some(m) => {
            entries.push((key.to_string(), m.to_json_value()));
        },
        None => {},
    }
    assert(pairs_view(entries@) =~= pairs_view(old(entries)@) + map_entry(
        key@,
        match *o {
            Some(m) => Some(m.pairs()),
            None => None,
        },
    ));
}


/// Copies an optional number.
pub fn clone_opt_number(o: &Option<serde_json::Number>) -> (r: Option<serde_json::Number>)
    ensures
        r == *o,
{
    match o {
        Some(n) => Some(n.clone()),
        None => None,
    }
}

/// Copies an optional list of texts.
pub fn clone_opt_strings(o: &Option<Vec<String>>) -> (r: Option<Vec<String>>)
    ensures
        match r {
            Some(v) => o matches Some(w) && strings_view(v@) == strings_view(w@),
            None => o is None,
        },
{
    match o {
        Some(v) => {
            let c = v.clone();
            assert(strings_view(c@) =~= strings_view(v@));
            Some(c)
        },
        None => None,
    }
}

/// Copies an optional list of JSON values.
pub fn clone_opt_values(o: &Option<Vec<serde_json::Value>>) -> (r: Option<Vec<serde_json::Value>>)
    ensures
        match r {
            Some(v) => o matches Some(w) && v@ == w@,
            None => o is None,
        },
{
    match o {
        Some(v) => {
            let c = v.clone();
            assert(c@ =~= v@);
            Some(c)
        },
        None => None,
    }
}

/// Copies an optional map.
pub fn clone_opt_map(o: &Option<JsonMap>) -> (r: Option<JsonMap>)
    ensures
        match r {
            Some(m) => o matches Some(w) && m.pairs() == w.pairs(),
            None => o is None,
        },
{
    match o {
        Some(m) => Some(m.clone()),
        None => None,
    }
}
} // verus!
