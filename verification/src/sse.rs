//! Server-sent events.
use vstd::prelude::*;
use vstd::std_specs::iter::IteratorSpec;
use vstd::string::StrSliceExecFns;

use crate::json::str_eq;
use crate::text::{join, join_spec, strings_view};
use vstd::utf8::{decode_utf8, valid_utf8};

verus! {

/// The characters of a text, in order.
pub fn chars_of(s: &str) -> (r: Vec<char>)
    ensures
        r@ == s@,
{
    let mut out: Vec<char> = Vec::new();
    let mut it = s.chars();
    proof {
        assert(it.remaining() == s@);
    }
    loop
        invariant
            out@ + it.remaining() == s@,
            it.decrease() is Some,
        ensures
            out@ == s@,
        decreases it.decrease()->0,
    {
        match it.next() {
            Some(c) => {
                out.push(c);
            },
            None => {
                assert(out@ =~= s@);
                break;
            },
        }
    }
    out
}


/// A character with the Unicode `White_Space` property.
pub open spec fn is_white_space(c: char) -> bool {
    let u = c as u32;
    ||| 9 <= u <= 13
    ||| u == 32
    ||| u == 0x85
    ||| u == 0xa0
    ||| u == 0x1680
    ||| 0x2000 <= u <= 0x200a
    ||| u == 0x2028
    ||| u == 0x2029
    ||| u == 0x202f
    ||| u == 0x205f
    ||| u == 0x3000
}

/// Whether a character has the Unicode `White_Space` property.
pub fn white_space(c: char) -> (b: bool)
    ensures
        b == is_white_space(c),
{
    let u = c as u32;
    (9 <= u && u <= 13) || u == 32 || u == 0x85 || u == 0xa0 || u == 0x1680 || (0x2000 <= u && u
        <= 0x200a) || u == 0x2028 || u == 0x2029 || u == 0x202f || u == 0x205f || u == 0x3000
}

/// The text before the first occurrence of `sep`, or all of it.
pub open spec fn before_char(s: Seq<char>, sep: char) -> Seq<char>
    decreases s.len(),
{
    if s.len() == 0 || s[0] == sep {
        Seq::empty()
    } else {
        seq![s[0]] + before_char(s.drop_first(), sep)
    }
}

/// The text without leading white space.
pub open spec fn trim_start(s: Seq<char>) -> Seq<char>
    decreases s.len(),
{
    if s.len() > 0 && is_white_space(s[0]) {
        trim_start(s.drop_first())
    } else {
        s
    }
}

/// The text without trailing white space.
pub open spec fn trim_end(s: Seq<char>) -> Seq<char>
    decreases s.len(),
{
    if s.len() > 0 && is_white_space(s.last()) {
        trim_end(s.drop_last())
    } else {
        s
    }
}

/// The text without leading or trailing white space.
pub open spec fn trim(s: Seq<char>) -> Seq<char> {
    trim_end(trim_start(s))
}

/// The code of a character with ASCII upper-case letters lowered.
pub open spec fn ascii_lower_code(c: char) -> u32 {
    if 65 <= c as u32 <= 90 {
        (c as u32 + 32) as u32
    } else {
        c as u32
    }
}

/// Two texts are equal once ASCII letters are lowered.
pub open spec fn eq_ignore_ascii_case(a: Seq<char>, b: Seq<char>) -> bool {
    a.len() == b.len() && forall|i: int| 0 <= i < a.len() ==> #[trigger] ascii_lower_code(a[i])
        == ascii_lower_code(b[i])
}

/// A `Content-Type` value names the event-stream media type: its part before
/// any `;`, trimmed, is `text/event-stream` in any ASCII case. A missing or
/// unreadable value does not.
pub open spec fn is_event_stream_spec(content_type: Option<Seq<char>>) -> bool {
    match content_type {
        Some(v) => eq_ignore_ascii_case(trim(before_char(v, ';')), "text/event-stream"@),
        None => false,
    }
}

proof fn lemma_before_char(s: Seq<char>, sep: char, k: int)
    requires
        0 <= k <= s.len(),
        forall|j: int| 0 <= j < k ==> s[j] != sep,
        k == s.len() || s[k] == sep,
    ensures
        before_char(s, sep) == s.take(k),
    decreases s.len(),
{
    if s.len() == 0 || s[0] == sep {
        assert(s.take(k) =~= Seq::<char>::empty());
    } else {
        let t = s.drop_first();
        assert forall|j: int| 0 <= j < k - 1 implies t[j] != sep by {
            assert(t[j] == s[j + 1]);
        }
        lemma_before_char(t, sep, k - 1);
        assert(s.take(k) =~= seq![s[0]] + t.take(k - 1));
    }
}

proof fn lemma_trim_start(s: Seq<char>, a: int)
    requires
        0 <= a <= s.len(),
        forall|j: int| 0 <= j < a ==> is_white_space(#[trigger] s[j]),
        a == s.len() || !is_white_space(s[a]),
    ensures
        trim_start(s) == s.skip(a),
    decreases s.len(),
{
    if s.len() > 0 && is_white_space(s[0]) {
        let t = s.drop_first();
        assert forall|j: int| 0 <= j < a - 1 implies is_white_space(#[trigger] t[j]) by {
            assert(t[j] == s[j + 1]);
        }
        lemma_trim_start(t, a - 1);
        assert(s.skip(a) =~= t.skip(a - 1));
    } else {
        assert(s.skip(a) =~= s);
    }
}

proof fn lemma_trim_end(s: Seq<char>, b: int)
    requires
        0 <= b <= s.len(),
        forall|j: int| b <= j < s.len() ==> is_white_space(#[trigger] s[j]),
        b == 0 || !is_white_space(s[b - 1]),
    ensures
        trim_end(s) == s.take(b),
    decreases s.len(),
{
    if s.len() > 0 && is_white_space(s.last()) {
        let t = s.drop_last();
        assert forall|j: int| b <= j < t.len() implies is_white_space(#[trigger] t[j]) by {
            assert(t[j] == s[j]);
        }
        lemma_trim_end(t, b);
        assert(s.take(b) =~= t.take(b));
    } else {
        assert(s.take(b) =~= s);
    }
}

/// Parameters after a `;` do not change whether a `Content-Type` value names
/// the event-stream media type.
pub proof fn lemma_event_stream_ignores_parameters(media: Seq<char>, params: Seq<char>)
    requires
        forall|i: int| 0 <= i < media.len() ==> media[i] != ';',
    ensures
        is_event_stream_spec(Some(media + seq![';'] + params)) == is_event_stream_spec(Some(media)),
{
    let whole = media + seq![';'] + params;
    assert forall|j: int| 0 <= j < media.len() implies whole[j] != ';' by {
        assert(whole[j] == media[j]);
    }
    assert(whole[media.len() as int] == ';');
    lemma_before_char(whole, ';', media.len() as int);
    lemma_before_char(media, ';', media.len() as int);
    assert(whole.take(media.len() as int) =~= media);
    assert(media.take(media.len() as int) =~= media);
}

/// Whether a `Content-Type` value names the event-stream media type: its
/// part before any `;`, trimmed, is `text/event-stream` in any ASCII case.
pub fn is_event_stream(content_type: Option<&str>) -> (b: bool)
    ensures
        b == is_event_stream_spec(
            match content_type {
                Some(v) => Some(v@),
                None => None,
            },
        ),
{
    let value = match content_type {
        Some(v) => v,
        None => {
            return false;
        },
    };
    let cs = chars_of(value);
    let ghost s = cs@;
    // End of the part before the first `;`.
    let mut k: usize = 0;
    while k < cs.len() && cs[k] != ';'
        invariant
            k <= cs@.len(),
            forall|j: int| 0 <= j < k ==> cs@[j] != ';',
        decreases cs@.len() - k,
    {
        k = k + 1;
    }
    proof {
        lemma_before_char(s, ';', k as int);
    }
    let ghost seg = s.take(k as int);
    // Leading white space.
    let mut a: usize = 0;
    while a < k && white_space(cs[a])
        invariant
            a <= k <= cs@.len(),
            s == cs@,
            seg == s.take(k as int),
            forall|j: int| 0 <= j < a ==> is_white_space(#[trigger] seg[j]),
        decreases k - a,
    {
        a = a + 1;
    }
    proof {
        lemma_trim_start(seg, a as int);
    }
    let ghost rest = seg.skip(a as int);
    // Trailing white space.
    let mut b: usize = k;
    while b > a && white_space(cs[b - 1])
        invariant
            a <= b <= k <= cs@.len(),
            s == cs@,
            seg == s.take(k as int),
            rest == seg.skip(a as int),
            forall|j: int| b - a <= j < rest.len() ==> is_white_space(#[trigger] rest[j]),
        decreases b - a,
    {
        assert(rest[b - 1 - a] == seg[b - 1]);
        b = b - 1;
    }
    proof {
        if b > a {
            assert(rest[b - a - 1] == seg[b - 1]);
        }
        lemma_trim_end(rest, (b - a) as int);
    }
    let ghost trimmed = rest.take((b - a) as int);
    assert(trim(before_char(s, ';')) == trimmed);
    assert forall|j: int| 0 <= j < trimmed.len() implies #[trigger] trimmed[j] == cs@[a + j] by {
        assert(trimmed[j] == rest[j]);
        assert(rest[j] == seg[a + j]);
    }
    let target = "text/event-stream";
    proof {
        reveal_strlit("text/event-stream");
    }
    let tc = chars_of(target);
    if b - a != tc.len() {
        return false;
    }
    let mut i: usize = 0;
    while i < tc.len()
        invariant
            i <= tc@.len(),
            tc@ == target@,
            target@ == "text/event-stream"@,
            content_type == Some(value),
            trim(before_char(value@, ';')) == trimmed,
            b - a == tc@.len(),
            a <= b <= cs@.len(),
            trimmed.len() == tc@.len(),
            forall|j: int| 0 <= j < trimmed.len() ==> #[trigger] trimmed[j] == cs@[a + j],
            forall|j: int| 0 <= j < i ==> #[trigger] ascii_lower_code(trimmed[j])
                == ascii_lower_code(tc@[j]),
        decreases tc@.len() - i,
    {
        let c = cs[a + i];
        let t = tc[i];
        let cu = c as u32;
        let lc: u32 = if 65 <= cu && cu <= 90 {
            cu + 32
        } else {
            cu
        };
        let tu = t as u32;
        let lt: u32 = if 65 <= tu && tu <= 90 {
            tu + 32
        } else {
            tu
        };
        assert(trimmed[i as int] == c);
        assert(lc == ascii_lower_code(c));
        assert(lt == ascii_lower_code(t));
        if lc != lt {
            assert(!eq_ignore_ascii_case(trimmed, tc@));
            return false;
        }
        i = i + 1;
    }
    true
}

/// One server-sent event: the data of its `data` lines, joined by line feeds.
#[derive(Debug, Clone)]
pub struct SseFrame {
    pub data: String,
}

/// The name of a line's field: the text before the first `:`, or the whole
/// line.
pub open spec fn field_name(line: Seq<char>) -> Seq<char> {
    before_char(line, ':')
}

/// The value of a line's field: the text after the first `:` without one
/// leading space; empty where the line has no `:`.
pub open spec fn field_value(line: Seq<char>) -> Seq<char> {
    let n = before_char(line, ':').len();
    if n < line.len() {
        let v = line.skip((n + 1) as int);
        if v.len() > 0 && v[0] == ' ' {
            v.drop_first()
        } else {
            v
        }
    } else {
        Seq::empty()
    }
}

/// One line fed to the decoder, given the data lines pending: the data lines
/// pending afterwards, and the data of the event the line completes. A blank
/// line completes an event where data is pending; a line starting with `:`
/// is a comment; a `data` field adds a data line; other fields are ignored.
pub open spec fn sse_step(pending: Seq<Seq<char>>, line: Seq<char>) -> (Seq<Seq<char>>, Option<Seq<char>>) {
    if line.len() == 0 {
        if pending.len() > 0 {
            (Seq::empty(), Some(join_spec(pending, "\n"@)))
        } else {
            (Seq::empty(), None)
        }
    } else if line[0] == ':' {
        (pending, None)
    } else if field_name(line) == "data"@ {
        (pending.push(field_value(line)), None)
    } else {
        (pending, None)
    }
}

/// A `data` line followed by a blank line yields one event whose data is
/// the line's value, and leaves nothing pending.
pub proof fn lemma_data_line_then_blank(line: Seq<char>)
    requires
        line.len() > 0,
        line[0] != ':',
        field_name(line) == "data"@,
    ensures
        sse_step(sse_step(Seq::empty(), line).0, Seq::empty()) == (Seq::<Seq<char>>::empty(), Some(field_value(line))),
{
    let pending = sse_step(Seq::empty(), line).0;
    assert(pending =~= seq![field_value(line)]);
    assert(join_spec(pending, "\n"@) == field_value(line));
}

/// Comment lines and blank lines with nothing pending yield no event, and a
/// comment leaves the pending data lines as they were.
pub proof fn lemma_comment_and_idle_blank(pending: Seq<Seq<char>>, line: Seq<char>)
    ensures
        line.len() > 0 && line[0] == ':' ==> sse_step(pending, line) == (pending, None::<Seq<char>>),
        pending.len() == 0 ==> sse_step(pending, Seq::empty()).1 is None,
{
}

/// Splits a line into field name and value.
fn split_field(line: &str) -> (r: (bool, String))
    ensures
        r.0 == (field_name(line@) == "data"@),
        r.1@ == field_value(line@),
{
    let cs = chars_of(line);
    let mut k: usize = 0;
    while k < cs.len() && cs[k] != ':'
        invariant
            k <= cs@.len(),
            forall|j: int| 0 <= j < k ==> cs@[j] != ':',
        decreases cs@.len() - k,
    {
        k = k + 1;
    }
    proof {
        lemma_before_char(cs@, ':', k as int);
    }
    let name = line.substring_char(0, k);
    let is_data = str_eq(name, "data");
    if k < cs.len() {
        let mut start = k + 1;
        if start < cs.len() && cs[start] == ' ' {
            start = start + 1;
        }
        let value = line.substring_char(start, cs.len()).to_string();
        proof {
            let v = line@.skip(k + 1);
            if v.len() > 0 && v[0] == ' ' {
                assert(value@ =~= v.drop_first());
            } else {
                assert(value@ =~= v);
            }
        }
        (is_data, value)
    } else {
        (is_data, String::new())
    }
}

/// The text `String::from_utf8_lossy` makes of bytes.
pub uninterp spec fn utf8_lossy_of(bytes: Seq<u8>) -> Seq<char>;

/// Calls `String::from_utf8_lossy`, which decodes bytes as UTF-8 and puts
/// U+FFFD in place of each malformed sequence. The result is named
/// `utf8_lossy_of`; of bytes that are valid UTF-8 it is the text they encode.
#[verifier::external_body]
pub(crate) fn utf8_lossy(bytes: &[u8]) -> (r: String)
    ensures
        r@ == utf8_lossy_of(bytes@),
        valid_utf8(bytes@) ==> r@ == decode_utf8(bytes@),
{
    String::from_utf8_lossy(bytes).into_owned()
}

/// The data of each event, in order.
pub open spec fn frames_data(frames: Seq<SseFrame>) -> Seq<Seq<char>> {
    frames.map_values(|f: SseFrame| f.data@)
}

/// The last line of a stream whose bytes after the last line feed are
/// `rest`: none where nothing is left, else those bytes without a final
/// carriage return, decoded.
pub open spec fn last_line_of(rest: Seq<u8>) -> Option<Seq<char>> {
    if rest.len() > 0 {
        Some(utf8_lossy_of(strip_cr(rest)))
    } else {
        None
    }
}

/// The data of the events that end a stream, given the data lines pending
/// and the stream's unterminated last line, if any: the event that line
/// completes, then the event whose data lines are still pending.
pub open spec fn sse_end(pending: Seq<Seq<char>>, last: Option<Seq<char>>) -> Seq<Seq<char>> {
    let step = match last {
        Some(l) => sse_step(pending, l),
        None => (pending, None),
    };
    let completed = match step.1 {
        Some(d) => seq![d],
        None => Seq::empty(),
    };
    if step.0.len() > 0 {
        completed.push(join_spec(step.0, "\n"@))
    } else {
        completed
    }
}

/// The bytes without a final carriage return.
fn strip_cr_bytes(bytes: &[u8]) -> (r: Vec<u8>)
    ensures
        r@ == strip_cr(bytes@),
{
    let n = bytes.len();
    let end: usize = if n > 0 && bytes[n - 1] == 13 {
        n - 1
    } else {
        n
    };
    let mut out: Vec<u8> = Vec::new();
    let mut i: usize = 0;
    while i < end
        invariant
            i <= end <= n,
            n == bytes@.len(),
            end as int == (if n > 0 && bytes@[n - 1] == 13 { n - 1 } else { n as int }),
            out@ == bytes@.take(i as int),
        decreases end - i,
    {
        out.push(bytes[i]);
        assert(bytes@.take(i + 1) =~= bytes@.take(i as int).push(bytes@[i as int]));
        i = i + 1;
    }
    assert(out@ =~= strip_cr(bytes@));
    out
}

/// Decoder of server-sent events, fed one line at a time (without its line
/// ending). It holds the data lines of the event being read.
#[derive(Debug, Clone)]
pub struct SseDecoder {
    data_lines: Vec<String>,
}

impl View for SseDecoder {
    type V = Seq<Seq<char>>;

    /// The data lines of the event being read.
    closed spec fn view(&self) -> Seq<Seq<char>> {
        strings_view(self.data_lines@)
    }
}

impl SseDecoder {
    /// A decoder with nothing pending.
    pub fn new() -> (d: SseDecoder)
        ensures
            d@ == Seq::<Seq<char>>::empty(),
    {
        let d = SseDecoder { data_lines: Vec::new() };
        assert(d@ =~= Seq::<Seq<char>>::empty());
        d
    }

    /// Feeds one line; returns the event it completes, if any.
    pub fn feed_line(&mut self, line: &str) -> (r: Option<SseFrame>)
        ensures
            final(self)@ == sse_step(old(self)@, line@).0,
            match r {
                Some(f) => sse_step(old(self)@, line@).1 == Some(f.data@),
                None => sse_step(old(self)@, line@).1 is None,
            },
    {
        let n = line.unicode_len();
        if n == 0 {
            if self.data_lines.len() > 0 {
                let data = join(&self.data_lines, "\n");
                self.data_lines = Vec::new();
                assert(self@ =~= Seq::<Seq<char>>::empty());
                return Some(SseFrame { data });
            } else {
                self.data_lines = Vec::new();
                assert(self@ =~= Seq::<Seq<char>>::empty());
                return None;
            }
        }
        if line.get_char(0) == ':' {
            return None;
        }
        let (is_data, value) = split_field(line);
        if is_data {
            let ghost before = self.data_lines@;
            self.data_lines.push(value);
            assert(self@ =~= strings_view(before).push(field_value(line@)));
        }
        None
    }

    /// Feeds one line given as bytes (without its line ending), decoded as
    /// UTF-8 with U+FFFD in place of each malformed sequence; returns the
    /// event it completes, if any.
    pub fn feed_line_bytes(&mut self, line: &[u8]) -> (r: Option<SseFrame>)
        ensures
            final(self)@ == sse_step(old(self)@, utf8_lossy_of(line@)).0,
            match r {
                Some(f) => sse_step(old(self)@, utf8_lossy_of(line@)).1 == Some(f.data@),
                None => sse_step(old(self)@, utf8_lossy_of(line@)).1 is None,
            },
    {
        let text = utf8_lossy(line);
        self.feed_line(text.as_str())
    }

    /// Ends a stream whose bytes after the last line feed are `rest`: where
    /// any are left they are fed as a last line, then the event whose data
    /// lines are still pending is completed. Returns the events, in order.
    pub fn finish_with_rest(&mut self, rest: &[u8]) -> (r: Vec<SseFrame>)
        ensures
            final(self)@ == Seq::<Seq<char>>::empty(),
            frames_data(r@) == sse_end(old(self)@, last_line_of(rest@)),
    {
        let mut out: Vec<SseFrame> = Vec::new();
        if rest.len() > 0 {
            let line = strip_cr_bytes(rest);
            if let Some(f) = self.feed_line_bytes(line.as_slice()) {
                out.push(f);
            }
        }
        if let Some(f) = self.finish() {
            out.push(f);
        }
        assert(frames_data(out@) =~= sse_end(old(self)@, last_line_of(rest@)));
        out
    }

    /// Ends the stream; returns the event whose data lines are still pending,
    /// if any.
    pub fn finish(&mut self) -> (r: Option<SseFrame>)
        ensures
            final(self)@ == Seq::<Seq<char>>::empty(),
            match r {
                Some(f) => old(self)@.len() > 0 && f.data@ == join_spec(old(self)@, "\n"@),
                None => old(self)@.len() == 0,
            },
    {
        let pending = self.data_lines.len() > 0;
        let data = join(&self.data_lines, "\n");
        self.data_lines = Vec::new();
        assert(self@ =~= Seq::<Seq<char>>::empty());
        if pending {
            Some(SseFrame { data })
        } else {
            None
        }
    }
}

/// The data that ends a stream.
pub open spec fn is_done_spec(data: Seq<char>) -> bool {
    data == "[DONE]"@
}

/// Whether an event's data is the `[DONE]` marker that ends a stream.
pub fn is_done_marker(data: &str) -> (b: bool)
    ensures
        b == is_done_spec(data@),
{
    str_eq(data, "[DONE]")
}

/// A line without the carriage return that may end it.
pub open spec fn strip_cr(line: Seq<u8>) -> Seq<u8> {
    if line.len() > 0 && line.last() == 13 {
        line.drop_last()
    } else {
        line
    }
}

/// Takes the first complete line out of buffered bytes: the bytes before the
/// first line feed, without a carriage return before it, leaving the bytes
/// after it buffered. `None`, and the buffer unchanged, where no line feed
/// has arrived yet.
pub fn take_line(buf: &mut Vec<u8>) -> (r: Option<Vec<u8>>)
    ensures
        match r {
            Some(line) => exists|k: int|
                0 <= k < old(buf)@.len() && old(buf)@[k] == 10
                && (forall|j: int| 0 <= j < k ==> old(buf)@[j] != 10)
                && line@ == strip_cr(old(buf)@.take(k))
                && final(buf)@ == old(buf)@.skip(k + 1),
            None => (forall|j: int| 0 <= j < old(buf)@.len() ==> old(buf)@[j] != 10)
                && final(buf)@ == old(buf)@,
        },
{
    let mut k: usize = 0;
    while k < buf.len() && buf[k] != 10
        invariant
            k <= buf@.len(),
            buf@ == old(buf)@,
            forall|j: int| 0 <= j < k ==> buf@[j] != 10,
        decreases buf@.len() - k,
    {
        k = k + 1;
    }
    if k == buf.len() {
        return None;
    }
    let ghost all = buf@;
    let end: usize = if k > 0 && buf[k - 1] == 13 {
        k - 1
    } else {
        k
    };
    let mut line: Vec<u8> = Vec::new();
    let mut i: usize = 0;
    while i < end
        invariant
            i <= end <= k < all.len(),
            buf@ == all,
            line@ == all.take(i as int),
        decreases end - i,
    {
        line.push(buf[i]);
        assert(all.take(i + 1) =~= all.take(i as int).push(all[i as int]));
        i = i + 1;
    }
    let mut rest: Vec<u8> = Vec::new();
    let mut j: usize = k + 1;
    while j < buf.len()
        invariant
            k + 1 <= j <= all.len(),
            buf@ == all,
            rest@ == all.subrange(k + 1, j as int),
        decreases all.len() - j,
    {
        rest.push(buf[j]);
        assert(all.subrange(k + 1, j + 1) =~= all.subrange(k + 1, j as int).push(all[j as int]));
        j = j + 1;
    }
    proof {
        assert(rest@ =~= all.skip(k + 1));
        let t = all.take(k as int);
        if k > 0 && all[k - 1] == 13 {
            assert(line@ =~= t.drop_last());
        } else {
            assert(line@ =~= t);
        }
        assert(line@ == strip_cr(t));
    }
    *buf = rest;
    Some(line)
}
/// The field name and value of a line `data: x`: `data` and `x`.
proof fn lemma_data_line_fields(x: Seq<char>)
    ensures
        field_name("data: "@ + x) == "data"@,
        field_value("data: "@ + x) == x,
        ("data: "@ + x).len() > 0,
        ("data: "@ + x)[0] != ':',
{
    reveal_strlit("data: ");
    reveal_strlit("data");
    let l = "data: "@ + x;
    assert(l[0] == 'd' && l[1] == 'a' && l[2] == 't' && l[3] == 'a' && l[4] == ':' && l[5] == ' ');
    assert(l.drop_first()[3] == ':');
    reveal_with_fuel(before_char, 6);
    assert(l.drop_first().drop_first().drop_first().drop_first() =~= l.skip(4));
    assert(before_char(l.skip(4), ':') =~= Seq::<char>::empty());
    assert(before_char(l.drop_first().drop_first().drop_first(), ':') =~= seq!['a']);
    assert(before_char(l.drop_first().drop_first(), ':') =~= seq!['t', 'a']);
    assert(before_char(l.drop_first(), ':') =~= seq!['a', 't', 'a']);
    assert(before_char(l, ':') =~= seq!['d', 'a', 't', 'a']);
    assert(field_name(l) =~= "data"@);
    assert(l.skip(5) =~= seq![' '] + x);
    assert(l.skip(5).drop_first() =~= x);
}

/// A line `data: x` followed by a blank line yields one event whose data is
/// `x`, whatever `x` is, and leaves nothing pending.
pub proof fn lemma_data_line_event(x: Seq<char>)
    ensures
        sse_step(sse_step(Seq::empty(), "data: "@ + x).0, Seq::empty())
            == (Seq::<Seq<char>>::empty(), Some(x)),
{
    lemma_data_line_fields(x);
    let p = sse_step(Seq::empty(), "data: "@ + x).0;
    assert(p =~= seq![x]);
    assert(join_spec(p, "\n"@) == x);
}

/// Two data lines followed by a blank line yield one event whose data is the
/// two values joined by a line feed.
pub proof fn lemma_two_data_lines_event(x: Seq<char>, y: Seq<char>)
    ensures
        sse_step(
            sse_step(sse_step(Seq::empty(), "data: "@ + x).0, "data: "@ + y).0,
            Seq::empty(),
        ).1 == Some(x + "\n"@ + y),
{
    lemma_data_line_fields(x);
    lemma_data_line_fields(y);
    let p = sse_step(sse_step(Seq::empty(), "data: "@ + x).0, "data: "@ + y).0;
    assert(p =~= seq![x, y]);
    assert(p.drop_last() =~= seq![x]);
    assert(join_spec(p, "\n"@) == join_spec(seq![x], "\n"@) + "\n"@ + y);
}

/// A comment line `: x` yields no event and leaves the pending data lines as
/// they were.
pub proof fn lemma_comment_line(pending: Seq<Seq<char>>, x: Seq<char>)
    ensures
        sse_step(pending, ":"@ + x) == (pending, None::<Seq<char>>),
{
    reveal_strlit(":");
    assert((":"@ + x)[0] == ':');
}

/// At the end of a stream with nothing left unterminated, data lines still
/// pending form one last event; with nothing pending there is none.
pub proof fn lemma_end_completes_pending(pending: Seq<Seq<char>>)
    ensures
        pending.len() > 0 ==> sse_end(pending, None) == seq![join_spec(pending, "\n"@)],
        pending.len() == 0 ==> sse_end(pending, None) == Seq::<Seq<char>>::empty(),
{
    if pending.len() > 0 {
        assert(sse_end(pending, None) =~= seq![join_spec(pending, "\n"@)]);
    } else {
        assert(sse_end(pending, None) =~= Seq::<Seq<char>>::empty());
    }
}

/// An unterminated last line `data: x` with nothing pending ends the stream
/// with one event whose data is `x`.
pub proof fn lemma_end_with_data_line(x: Seq<char>)
    ensures
        sse_end(Seq::empty(), Some("data: "@ + x)) == seq![x],
{
    lemma_data_line_fields(x);
    let p = sse_step(Seq::empty(), "data: "@ + x).0;
    assert(p =~= seq![x]);
    assert(join_spec(p, "\n"@) == x);
    assert(sse_end(Seq::empty(), Some("data: "@ + x)) =~= seq![x]);
}


/// `text/event-stream`, alone or followed by `;` and any parameters, names
/// the event-stream media type.
pub proof fn lemma_event_stream_media_type(params: Seq<char>)
    ensures
        is_event_stream_spec(Some("text/event-stream"@)),
        is_event_stream_spec(Some("text/event-stream"@ + seq![';'] + params)),
{
    let m = "text/event-stream"@;
    reveal_strlit("text/event-stream");
    assert(m.len() == 17);
    assert forall|j: int| 0 <= j < m.len() implies m[j] != ';' && !is_white_space(#[trigger] m[j]) by {
    }
    lemma_before_char(m, ';', m.len() as int);
    assert(m.take(m.len() as int) =~= m);
    lemma_trim_start(m, 0);
    assert(m.skip(0) =~= m);
    lemma_trim_end(m, m.len() as int);
    assert(trim(before_char(m, ';')) == m);
    lemma_event_stream_ignores_parameters(m, params);
}

/// The data that ends a stream is exactly `[DONE]`.
pub proof fn lemma_done_marker_text(d: Seq<char>)
    ensures
        is_done_spec(d) <==> d == seq!['[', 'D', 'O', 'N', 'E', ']'],
{
    reveal_strlit("[DONE]");
    assert("[DONE]"@ =~= seq!['[', 'D', 'O', 'N', 'E', ']']);
}

/// A final carriage return is dropped from a line, and a line without one
/// is kept as it is.
pub proof fn lemma_strip_cr_fields(s: Seq<u8>)
    ensures
        strip_cr(s.push(13u8)) == s,
        (s.len() == 0 || s.last() != 13) ==> strip_cr(s) == s,
{
    assert(s.push(13u8).drop_last() =~= s);
}


} // verus!
