//! Response headers as the engine emits them: raw `Name: Value` bytes.

use vstd::prelude::*;

use vstd::utf8::{decode_utf8, valid_utf8};

use crate::text::owned;

verus! {

/// What `String::from_utf8_lossy` makes of a byte sequence: the decoded text,
/// with each invalid sequence replaced by U+FFFD.
pub uninterp spec fn lossy_text(b: Seq<u8>) -> Seq<char>;

/// Relies on `memchr::memchr`: the index of the first occurrence of `needle`.
#[verifier::external_body]
fn first_byte(needle: u8, haystack: &[u8]) -> (r: Option<usize>)
    ensures
        match r {
            Some(i) => i < haystack@.len() && haystack@[i as int] == needle && forall|j: int|
                0 <= j < i ==> haystack@[j] != needle,
            None => forall|j: int| 0 <= j < haystack@.len() ==> haystack@[j] != needle,
        },
{
    memchr::memchr(needle, haystack)
}

/// Declares `std::str::Utf8Error`, the error of a failed UTF-8 decoding.
#[verifier::external_type_specification]
#[verifier::external_body]
pub struct ExUtf8Error(std::str::Utf8Error);

/// Relies on `std::str::from_utf8`: succeeds exactly on valid UTF-8, and then
/// reads the bytes as text.
#[verifier::external_body]
pub(crate) fn utf8_text(b: &[u8]) -> (r: Result<&str, std::str::Utf8Error>)
    ensures
        r is Ok <==> valid_utf8(b@),
        r matches Ok(s) ==> s@ == decode_utf8(b@),
{
    std::str::from_utf8(b)
}

/// Relies on `String::from_utf8_lossy`: on valid UTF-8 it is the decoded text.
#[verifier::external_body]
pub(crate) fn utf8_text_lossy(b: &[u8]) -> (r: String)
    ensures
        r@ == lossy_text(b@),
        valid_utf8(b@) ==> r@ == decode_utf8(b@),
{
    String::from_utf8_lossy(b).into_owned()
}

/// `char::is_whitespace`: the Unicode `White_Space` property.
pub fn is_white_space(c: char) -> (r: bool)
    ensures
        r == white_space(c),
{
    ('\t' <= c && c <= '\r') || c == ' ' || c == '\u{85}' || c == '\u{a0}' || c == '\u{1680}'
        || ('\u{2000}' <= c && c <= '\u{200a}') || c == '\u{2028}' || c == '\u{2029}'
        || c == '\u{202f}' || c == '\u{205f}' || c == '\u{3000}'
}

/// The characters with the Unicode `White_Space` property.
pub open spec fn white_space(c: char) -> bool {
    ('\t' <= c && c <= '\r') || c == ' ' || c == '\u{85}' || c == '\u{a0}' || c == '\u{1680}'
        || ('\u{2000}' <= c && c <= '\u{200a}') || c == '\u{2028}' || c == '\u{2029}'
        || c == '\u{202f}' || c == '\u{205f}' || c == '\u{3000}'
}

/// `s` without its leading white space.
pub open spec fn trim_start(s: Seq<char>) -> Seq<char>
    decreases s.len(),
{
    if s.len() > 0 && white_space(s[0]) {
        trim_start(s.drop_first())
    } else {
        s
    }
}

/// `s` without its trailing white space.
pub open spec fn trim_end(s: Seq<char>) -> Seq<char>
    decreases s.len(),
{
    if s.len() > 0 && white_space(s.last()) {
        trim_end(s.drop_last())
    } else {
        s
    }
}

/// `s` without white space at either end, as `str::trim`.
pub open spec fn trim(s: Seq<char>) -> Seq<char> {
    trim_end(trim_start(s))
}

/// The bytes that `u8::is_ascii_whitespace` accepts.
pub open spec fn ascii_white(b: u8) -> bool {
    b == 0x20 || b == 0x09 || b == 0x0a || b == 0x0c || b == 0x0d
}

/// The index of the first byte at or after `from` that is not ASCII white space.
pub open spec fn skip_white(b: Seq<u8>, from: int) -> int
    decreases b.len() - from,
{
    if 0 <= from < b.len() && ascii_white(b[from]) {
        skip_white(b, from + 1)
    } else {
        from
    }
}

/// `i` is the index of the first colon in `b`.
pub open spec fn first_colon_at(b: Seq<u8>, i: int) -> bool {
    0 <= i < b.len() && b[i] == 0x3a && forall|j: int| 0 <= j < i ==> b[j] != 0x3a
}

pub open spec fn has_colon(b: Seq<u8>) -> bool {
    exists|i: int| 0 <= i < b.len() && b[i] == 0x3a
}

/// The index of the first colon in `b`, where there is one.
pub open spec fn first_colon(b: Seq<u8>) -> int {
    choose|i: int| first_colon_at(b, i)
}

/// The bytes of a value as text: decoded where they are UTF-8, leniently otherwise.
pub open spec fn value_text(b: Seq<u8>) -> Seq<char> {
    if valid_utf8(b) {
        decode_utf8(b)
    } else {
        lossy_text(b)
    }
}

/// Name and value of a raw header line, or `None` where the line is dropped:
/// no colon, a colon first, a name that is not UTF-8 or is only white space.
/// The name is trimmed; the value starts after the white space that follows
/// the colon and is decoded leniently.
pub open spec fn header_fields(b: Seq<u8>) -> Option<(Seq<char>, Seq<char>)> {
    if !has_colon(b) {
        None
    } else {
        let c = first_colon(b);
        let name_bytes = b.subrange(0, c);
        if c == 0 || !valid_utf8(name_bytes) || trim(decode_utf8(name_bytes)).len() == 0 {
            None
        } else {
            Some(
                (
                    trim(decode_utf8(name_bytes)),
                    value_text(b.subrange(skip_white(b, c + 1), b.len() as int)),
                ),
            )
        }
    }
}

/// The name that a header line gives, where it gives one.
pub open spec fn parsed_name(b: Seq<u8>) -> Seq<char> {
    match header_fields(b) {
        Some(f) => f.0,
        None => Seq::empty(),
    }
}

/// The value that a header line gives, where it gives one.
pub open spec fn parsed_value(b: Seq<u8>) -> Seq<char> {
    match header_fields(b) {
        Some(f) => f.1,
        None => Seq::empty(),
    }
}

proof fn lemma_first_colon(b: Seq<u8>, i: int)
    requires
        first_colon_at(b, i),
    ensures
        has_colon(b),
        first_colon(b) == i,
{
    assert(first_colon_at(b, i));
    let k = first_colon(b);
    assert(first_colon_at(b, k));
    if k < i {
        assert(b[k] != 0x3a);
    }
    if i < k {
        assert(b[i] != 0x3a);
    }
}


/// From `from` on, all bytes are ASCII white space: skipping reaches the end.
proof fn lemma_skip_all_white(b: Seq<u8>, from: int)
    requires
        0 <= from <= b.len(),
        forall|i: int| from <= i < b.len() ==> ascii_white(b[i]),
    ensures
        skip_white(b, from) == b.len(),
    decreases b.len() - from,
{
    if from < b.len() {
        lemma_skip_all_white(b, from + 1);
    }
}

/// A line `Name:` followed by nothing but white space gives the trimmed
/// name and an empty value.
pub proof fn lemma_empty_value(name: Seq<u8>, ws: Seq<u8>)
    requires
        forall|i: int| 0 <= i < name.len() ==> name[i] != 0x3a,
        valid_utf8(name),
        trim(decode_utf8(name)).len() > 0,
        forall|i: int| 0 <= i < ws.len() ==> ascii_white(#[trigger] ws[i]),
    ensures
        header_fields(name + seq![0x3au8] + ws) == Some((trim(decode_utf8(name)), Seq::<char>::empty())),
{
    let b = name + seq![0x3au8] + ws;
    let c = name.len() as int;
    assert(b[c] == 0x3a);
    assert(forall|j: int| 0 <= j < c ==> b[j] == name[j]);
    lemma_first_colon(b, c);
    assert(b.subrange(0, c) =~= name);
    if c == 0 {
        assert(decode_utf8(name) =~= Seq::<char>::empty());
    }
    assert forall|i: int| c + 1 <= i < b.len() implies ascii_white(b[i]) by {
        assert(b[i] == ws[i - c - 1]);
    }
    lemma_skip_all_white(b, c + 1);
    let v = b.subrange(b.len() as int, b.len() as int);
    assert(v =~= Seq::<u8>::empty());
    assert(valid_utf8(v));
    assert(decode_utf8(v) =~= Seq::<char>::empty());
}

/// A line without a colon, with a colon first, or with a name that is not
/// UTF-8 is dropped.
pub proof fn lemma_dropped_lines(b: Seq<u8>)
    ensures
        !has_colon(b) ==> header_fields(b) is None,
        b.len() > 0 && b[0] == 0x3a ==> header_fields(b) is None,
        has_colon(b) && !valid_utf8(b.subrange(0, first_colon(b))) ==> header_fields(b) is None,
{
    if b.len() > 0 && b[0] == 0x3a {
        lemma_first_colon(b, 0);
    }
}

/// `str::trim`, over characters.
pub fn trim_text(s: &str) -> (r: &str)
    ensures
        r@ == trim(s@),
{
    let n = s.unicode_len();
    let mut i: usize = 0;
    assert(s@.subrange(0, n as int) =~= s@);
    while i < n && is_white_space(s.get_char(i))
        invariant
            n == s@.len(),
            i <= n,
            trim_start(s@) == trim_start(s@.subrange(i as int, n as int)),
        decreases n - i,
    {
        assert(s@.subrange(i as int, n as int).drop_first() =~= s@.subrange(i + 1, n as int));
        i = i + 1;
    }
    let ghost front = s@.subrange(i as int, n as int);
    assert(trim_start(s@) == front);
    let mut j: usize = n;
    while j > i && is_white_space(s.get_char(j - 1))
        invariant
            n == s@.len(),
            i <= j <= n,
            front == s@.subrange(i as int, n as int),
            trim_end(front) == trim_end(s@.subrange(i as int, j as int)),
        decreases j,
    {
        assert(s@.subrange(i as int, j as int).drop_last() =~= s@.subrange(i as int, j - 1));
        j = j - 1;
    }
    s.substring_char(i, j)
}

/// A response header: name and value.
#[derive(Debug, Clone, PartialEq, Eq)]
pub struct ResponseHeader {
    name: String,
    value: String,
}

impl ResponseHeader {
    pub fn new(name: String, value: String) -> (r: Self)
        ensures
            r.spec_name() == name@,
            r.spec_value() == value@,
    {
        ResponseHeader { name, value }
    }

    pub closed spec fn spec_name(&self) -> Seq<char> {
        self.name@
    }

    pub closed spec fn spec_value(&self) -> Seq<char> {
        self.value@
    }

    pub fn name(&self) -> (r: &str)
        ensures
            r@ == self.spec_name(),
    {
        self.name.as_str()
    }

    pub fn value(&self) -> (r: &str)
        ensures
            r@ == self.spec_value(),
    {
        self.value.as_str()
    }

    /// A copy with the same name and value.
    pub fn clone_header(&self) -> (r: Self)
        ensures
            r == *self,
    {
        ResponseHeader { name: self.name.clone(), value: self.value.clone() }
    }

    /// Reads one `Name: Value` line; a malformed line gives `None`.
    pub fn parse(bytes: &[u8]) -> (r: Option<Self>)
        ensures
            match header_fields(bytes@) {
                Some(f) => r matches Some(h) && h.spec_name() == f.0 && h.spec_value() == f.1,
                None => r is None,
            },
    {
        let colon = match first_byte(0x3a, bytes) {
            Some(c) => c,
            None => {
                return None;
            },
        };
        proof {
            lemma_first_colon(bytes@, colon as int);
        }
        if colon == 0 {
            return None;
        }
        let len = bytes.len();
        let mut start: usize = colon + 1;
        while start < len && is_ascii_white(bytes[start])
            invariant
                len == bytes@.len(),
                colon < start <= len,
                skip_white(bytes@, colon + 1) == skip_white(bytes@, start as int),
            decreases len - start,
        {
            start = start + 1;
        }
        let name_bytes = &bytes[0..colon];
        let name_text = match utf8_text(name_bytes) {
            Ok(t) => t,
            Err(_) => {
                return None;
            },
        };
        let name = trim_text(name_text);
        if name.unicode_len() == 0 {
            return None;
        }
        let value_bytes = &bytes[start..len];
        let value = match utf8_text(value_bytes) {
            Ok(t) => owned(t),
            Err(_) => utf8_text_lossy(value_bytes),
        };
        Some(ResponseHeader { name: owned(name), value })
    }
}

/// `u8::is_ascii_whitespace`.
pub fn is_ascii_white(b: u8) -> (r: bool)
    ensures
        r == ascii_white(b),
{
    b == 0x20 || b == 0x09 || b == 0x0a || b == 0x0c || b == 0x0d
}

} // verus!
