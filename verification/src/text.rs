//! Text building: appending, joining, and the percent-encoding of URL path
//! segments.
use vstd::prelude::*;
use vstd::string::StringExecFns;
use vstd::utf8::{encode_scalar, encode_utf8};

verus! {

/// A byte that percent-encoding leaves as it is: an ASCII letter or digit,
/// `-`, `.`, `_` or `~`.
pub open spec fn is_unreserved_byte(b: u8) -> bool {
    ||| 48 <= b <= 57
    ||| 65 <= b <= 90
    ||| 97 <= b <= 122
    ||| b == 45
    ||| b == 46
    ||| b == 95
    ||| b == 126
}

/// The upper-case hexadecimal digit for a value below 16.
pub open spec fn hex_digit_char(d: u8) -> char {
    if d < 10 {
        (48 + d) as char
    } else {
        (55 + d) as char
    }
}

/// One byte percent-encoded: itself where unreserved, else `%` and two
/// upper-case hexadecimal digits.
pub open spec fn percent_encode_byte(b: u8) -> Seq<char> {
    if is_unreserved_byte(b) {
        seq![(b as u32) as char]
    } else {
        seq!['%', hex_digit_char(b / 16), hex_digit_char(b % 16)]
    }
}

/// Bytes percent-encoded one by one, in order.
pub open spec fn percent_encode(bytes: Seq<u8>) -> Seq<char>
    decreases bytes.len(),
{
    if bytes.len() == 0 {
        Seq::empty()
    } else {
        percent_encode_byte(bytes[0]) + percent_encode(bytes.drop_first())
    }
}

/// An ASCII character that percent-encoding leaves as it is.
pub open spec fn is_unreserved_char(c: char) -> bool {
    (c as u32) < 128 && is_unreserved_byte((c as u32) as u8)
}

/// Text made only of ASCII letters, digits, `-`, `.`, `_` and `~` is its
/// own percent-encoding.
pub proof fn lemma_percent_encode_unreserved(s: Seq<char>)
    requires
        forall|i: int| 0 <= i < s.len() ==> is_unreserved_char(#[trigger] s[i]),
    ensures
        percent_encode(encode_utf8(s)) == s,
    decreases s.len(),
{
    if s.len() > 0 {
        let c = s[0];
        let t = s.drop_first();
        assert forall|i: int| 0 <= i < t.len() implies is_unreserved_char(#[trigger] t[i]) by {
            assert(t[i] == s[i + 1]);
        }
        lemma_percent_encode_unreserved(t);
        let v = c as u32;
        assert(is_unreserved_char(s[0]));
        assert(v & 0x7f == v) by (bit_vector)
            requires
                v < 128,
        ;
        assert(encode_scalar(v) == seq![v as u8]);
        let bytes = encode_utf8(s);
        assert(bytes == encode_scalar(v) + encode_utf8(t));
        assert(bytes[0] == v as u8);
        assert(bytes.drop_first() =~= encode_utf8(t));
        assert((v as u8) as u32 == v);
        vstd::utf8::char_u32_cast(c, (v as u8) as u32);
        assert(percent_encode_byte(v as u8) =~= seq![c]);
        assert(s =~= seq![c] + t);
    }
}

/// Calls `urlencoding::encode`, which percent-encodes every byte of the
/// text's UTF-8 encoding except ASCII letters, digits, `-`, `.`, `_` and `~`,
/// with upper-case hexadecimal digits.
#[verifier::external_body]
pub(crate) fn url_encode(s: &str) -> (r: String)
    ensures
        r@ == percent_encode(encode_utf8(s@)),
{
    urlencoding::encode(s).into_owned()
}

/// Appends text to the end of a string.
pub fn push_str(s: &mut String, t: &str)
    ensures
        final(s)@ == old(s)@ + t@,
{
    s.append(t);
}

/// The texts joined with a separator between each two.
pub open spec fn join_spec(parts: Seq<Seq<char>>, sep: Seq<char>) -> Seq<char>
    decreases parts.len(),
{
    if parts.len() == 0 {
        Seq::empty()
    } else if parts.len() == 1 {
        parts[0]
    } else {
        join_spec(parts.drop_last(), sep) + sep + parts.last()
    }
}

/// The views of a list of strings.
pub open spec fn strings_view(v: Seq<String>) -> Seq<Seq<char>> {
    v.map_values(|s: String| s@)
}

/// Joins texts with a separator between each two.
pub fn join(parts: &Vec<String>, sep: &str) -> (r: String)
    ensures
        r@ == join_spec(strings_view(parts@), sep@),
{
    let ghost sv = strings_view(parts@);
    let mut out = String::new();
    let mut i: usize = 0;
    assert(sv.take(0) =~= Seq::<Seq<char>>::empty());
    while i < parts.len()
        invariant
            i <= parts@.len(),
            sv == strings_view(parts@),
            out@ == join_spec(sv.take(i as int), sep@),
        decreases parts@.len() - i,
    {
        assert(sv.take(i + 1).drop_last() =~= sv.take(i as int));
        if i > 0 {
            push_str(&mut out, sep);
        }
        push_str(&mut out, parts[i].as_str());
        assert(sv.take(i + 1).last() == parts@[i as int]@);
        proof {
            if i == 0 {
                assert(sv.take(1)[0] == parts@[0]@);
                assert(out@ =~= parts@[0]@);
            }
        }
        i = i + 1;
    }
    assert(sv.take(parts@.len() as int) =~= sv);
    out
}

/// Percent-encoding works byte by byte: the encoding of two byte strings put
/// together is their encodings put together.
pub proof fn lemma_percent_encode_concat(a: Seq<u8>, b: Seq<u8>)
    ensures
        percent_encode(a + b) == percent_encode(a) + percent_encode(b),
    decreases a.len(),
{
    if a.len() == 0 {
        assert(a + b =~= b);
        assert(percent_encode(a) + percent_encode(b) =~= percent_encode(b));
    } else {
        lemma_percent_encode_concat(a.drop_first(), b);
        assert((a + b).drop_first() =~= a.drop_first() + b);
        assert((a + b)[0] == a[0]);
        assert(percent_encode(a + b) =~= percent_encode_byte(a[0]) + percent_encode(a.drop_first() + b));
        assert(percent_encode(a) =~= percent_encode_byte(a[0]) + percent_encode(a.drop_first()));
    }
}

/// The value of an upper-case hexadecimal digit.
pub open spec fn hex_digit_value(c: char) -> int {
    if '0' <= c <= '9' {
        c as int - '0' as int
    } else {
        c as int - 'A' as int + 10
    }
}

/// A byte other than an ASCII letter, digit, `-`, `.`, `_` or `~` is written
/// as `%` followed by two upper-case hexadecimal digits that read back as the
/// byte; any other byte is written as its own character.
pub proof fn lemma_percent_encode_byte_fields(b: u8)
    ensures
        !is_unreserved_byte(b) ==> {
            let r = percent_encode(seq![b]);
            &&& r.len() == 3
            &&& r[0] == '%'
            &&& ('0' <= r[1] <= '9' || 'A' <= r[1] <= 'F')
            &&& ('0' <= r[2] <= '9' || 'A' <= r[2] <= 'F')
            &&& hex_digit_value(r[1]) * 16 + hex_digit_value(r[2]) == b
        },
        is_unreserved_byte(b) ==> percent_encode(seq![b]) == seq![(b as u32) as char],
{
    assert(seq![b].drop_first() =~= Seq::<u8>::empty());
    assert(percent_encode(Seq::<u8>::empty()) =~= Seq::<char>::empty());
    assert(percent_encode(seq![b]) == percent_encode_byte(b) + percent_encode(seq![b].drop_first()));
    assert(percent_encode(seq![b]) =~= percent_encode_byte(b));
    let hi = b / 16;
    let lo = b % 16;
    assert(hi < 16 && lo < 16);
    assert(hi * 16 + lo == b);
}

/// Joining nothing gives the empty text, one text gives itself, and two or
/// three texts give them in order with the separator between each two.
pub proof fn lemma_join_small(a: Seq<char>, b: Seq<char>, c: Seq<char>, sep: Seq<char>)
    ensures
        join_spec(Seq::empty(), sep) == Seq::<char>::empty(),
        join_spec(seq![a], sep) == a,
        join_spec(seq![a, b], sep) == a + sep + b,
        join_spec(seq![a, b, c], sep) == a + sep + b + sep + c,
{
    assert(seq![a, b].drop_last() =~= seq![a]);
    assert(seq![a, b, c].drop_last() =~= seq![a, b]);
    assert(join_spec(seq![a], sep) == a);
    assert(join_spec(seq![a, b], sep) == join_spec(seq![a], sep) + sep + b);
    assert(join_spec(seq![a, b, c], sep) == join_spec(seq![a, b], sep) + sep + c);
}

} // verus!
