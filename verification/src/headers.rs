//! Interpretation of raw HTTP header bytes.
//!
//! Header values reach the library as raw bytes. A value counts as text
//! only when every byte is visible ASCII or a horizontal tab, which is the
//! rule `http::HeaderValue::to_str` applies.

use vstd::prelude::*;
use vstd::utf8::*;

verus! {

/// A byte accepted by `HeaderValue::to_str`: visible ASCII or a tab.
pub open spec fn is_visible_ascii(b: u8) -> bool {
    (32 <= b && b < 127) || b == 9
}

/// A byte accepted by `HeaderValue::from_str`: anything but a control
/// character, except that a tab is allowed.
pub open spec fn is_header_value_byte(b: u8) -> bool {
    (32 <= b && b != 127) || b == 9
}

pub open spec fn all_visible_ascii(bytes: Seq<u8>) -> bool {
    forall|i: int| 0 <= i < bytes.len() ==> is_visible_ascii(#[trigger] bytes[i])
}

pub open spec fn all_header_value_bytes(bytes: Seq<u8>) -> bool {
    forall|i: int| 0 <= i < bytes.len() ==> is_header_value_byte(#[trigger] bytes[i])
}

/// The characters of an ASCII byte sequence, one per byte.
pub open spec fn ascii_text(bytes: Seq<u8>) -> Seq<char> {
    Seq::new(bytes.len(), |i: int| bytes[i] as char)
}

/// The text of a header value, or `None` where `HeaderValue::to_str` fails.
pub open spec fn header_text(bytes: Seq<u8>) -> Option<Seq<char>> {
    if all_visible_ascii(bytes) {
        Some(ascii_text(bytes))
    } else {
        None
    }
}

/// Bytes below 0x80 are valid UTF-8 and decode to one character each.
pub proof fn lemma_ascii_decodes(bytes: Seq<u8>)
    requires
        forall|i: int| 0 <= i < bytes.len() ==> #[trigger] bytes[i] < 128,
    ensures
        valid_utf8(bytes),
        decode_utf8(bytes) == ascii_text(bytes),
    decreases bytes.len(),
{
    if bytes.len() > 0 {
        let b = bytes[0];
        let rest = bytes.subrange(1, bytes.len() as int);
        assert(b < 128);
        assert(b & 0x7f == b) by (bit_vector)
            requires
                b < 128,
        ;
        assert(pop_first_scalar(bytes) =~= rest);
        assert forall|i: int| 0 <= i < rest.len() implies #[trigger] rest[i] < 128 by {
            assert(rest[i] == bytes[i + 1]);
        }
        lemma_ascii_decodes(rest);
        assert(decode_first_scalar(bytes) == b as u32);
        assert(decode_utf8(bytes) =~= ascii_text(bytes));
    }
}

/// `std::str::from_utf8`: the string whose UTF-8 encoding is `bytes`, or
/// `None` when `bytes` is not valid UTF-8.
#[verifier::external_body]
fn utf8_str(bytes: &[u8]) -> (res: Option<&str>)
    ensures
        res is Some <==> valid_utf8(bytes@),
        res matches Some(s) ==> s@ == decode_utf8(bytes@),
{
    std::str::from_utf8(bytes).ok()
}

/// Whether every byte of `bytes` is visible ASCII or a tab.
pub fn is_visible_ascii_text(bytes: &[u8]) -> (res: bool)
    ensures
        res == all_visible_ascii(bytes@),
{
    let mut i: usize = 0;
    while i < bytes.len()
        invariant
            i <= bytes@.len(),
            forall|j: int| 0 <= j < i ==> is_visible_ascii(#[trigger] bytes@[j]),
        decreases bytes@.len() - i,
    {
        let b = bytes[i];
        if !((32 <= b && b < 127) || b == 9) {
            assert(!is_visible_ascii(bytes@[i as int]));
            return false;
        }
        i = i + 1;
    }
    true
}

/// The text of a header value, as `HeaderValue::to_str` gives it: `None`
/// unless every byte is visible ASCII or a tab.
pub fn header_value_to_str(bytes: &[u8]) -> (res: Option<&str>)
    ensures
        res is Some <==> header_text(bytes@) is Some,
        res matches Some(s) ==> header_text(bytes@) == Some(s@),
{
    if !is_visible_ascii_text(bytes) {
        return None;
    }
    proof {
        assert forall|i: int| 0 <= i < bytes@.len() implies #[trigger] bytes@[i] < 128 by {
            assert(is_visible_ascii(bytes@[i]));
        }
        lemma_ascii_decodes(bytes@);
    }
    utf8_str(bytes)
}


/// ASCII lower-casing of one byte, as `u8::to_ascii_lowercase` does it.
pub open spec fn lower_byte(b: u8) -> u8 {
    if 65 <= b <= 90 {
        (b + 32) as u8
    } else {
        b
    }
}

/// ASCII lower-casing of a byte sequence; other bytes are kept.
pub open spec fn ascii_lowercase(bytes: Seq<u8>) -> Seq<u8> {
    bytes.map_values(|b: u8| lower_byte(b))
}

/// `needle` occurs in `hay` as a contiguous run.
pub open spec fn contains_bytes(hay: Seq<u8>, needle: Seq<u8>) -> bool {
    exists|i: int|
        0 <= i && i + needle.len() <= hay.len() && #[trigger] hay.subrange(i, i + needle.len())
            == needle
}

/// The bytes of an ASCII string literal, one per character.
pub open spec fn keyword(s: &str) -> Seq<u8> {
    s@.map_values(|c: char| c as u8)
}

/// The bytes of an ASCII string.
pub fn ascii_bytes(s: &str) -> (res: &[u8])
    requires
        vstd::string::is_ascii(s),
    ensures
        res@ == keyword(s),
{
    proof {
        broadcast use vstd::string::group_string_axioms;
    }
    let b = s.as_bytes();
    assert(b@ =~= keyword(s));
    b
}

/// ASCII lower-casing of a byte slice.
pub fn lowercase_ascii(bytes: &[u8]) -> (res: Vec<u8>)
    ensures
        res@ == ascii_lowercase(bytes@),
{
    let mut out: Vec<u8> = Vec::new();
    let mut i: usize = 0;
    while i < bytes.len()
        invariant
            i <= bytes@.len(),
            out@ =~= ascii_lowercase(bytes@.subrange(0, i as int)),
        decreases bytes@.len() - i,
    {
        let b = bytes[i];
        let l = if 65 <= b && b <= 90 {
            b + 32
        } else {
            b
        };
        out.push(l);
        i = i + 1;
        assert(out@ =~= ascii_lowercase(bytes@.subrange(0, i as int)));
    }
    assert(bytes@.subrange(0, bytes@.len() as int) =~= bytes@);
    out
}

/// Whether two byte slices hold the same bytes.
pub fn bytes_equal(a: &[u8], b: &[u8]) -> (res: bool)
    ensures
        res == (a@ == b@),
{
    if a.len() != b.len() {
        return false;
    }
    let mut i: usize = 0;
    while i < a.len()
        invariant
            a@.len() == b@.len(),
            i <= a@.len(),
            forall|j: int| 0 <= j < i ==> a@[j] == b@[j],
        decreases a@.len() - i,
    {
        if a[i] != b[i] {
            return false;
        }
        i = i + 1;
    }
    assert(a@ =~= b@);
    true
}

/// Whether `needle` occurs in `hay`.
pub fn contains_subslice(hay: &[u8], needle: &[u8]) -> (res: bool)
    ensures
        res == contains_bytes(hay@, needle@),
{
    let h = hay.len();
    let n = needle.len();
    if n > h {
        return false;
    }
    let mut i: usize = 0;
    while i <= h - n
        invariant
            h == hay@.len(),
            n == needle@.len(),
            n <= h,
            i <= h - n + 1,
            forall|k: int|
                0 <= k < i ==> #[trigger] hay@.subrange(k, k + n as int) != needle@,
        decreases h - n + 1 - i,
    {
        let mut j: usize = 0;
        let mut same = true;
        while j < n
            invariant
                h == hay@.len(),
                n == needle@.len(),
                i + n <= h,
                j <= n,
                same == (forall|m: int| 0 <= m < j ==> hay@[i + m] == needle@[m]),
            decreases n - j,
        {
            if hay[i + j] != needle[j] {
                same = false;
            }
            j = j + 1;
        }
        if same {
            assert(hay@.subrange(i as int, i + n as int) =~= needle@);
            return true;
        }
        assert(hay@.subrange(i as int, i + n as int)[0] == hay@[i as int]);
        assert(exists|m: int| 0 <= m < n && hay@[i + m] != needle@[m]);
        let ghost m = choose|m: int| 0 <= m < n && hay@[i + m] != needle@[m];
        assert(hay@.subrange(i as int, i + n as int)[m] != needle@[m]);
        i = i + 1;
    }
    assert forall|k: int| 0 <= k && k + n <= h implies #[trigger] hay@.subrange(k, k + n as int)
        != needle@ by {
        assert(k < i);
    }
    false
}

} // verus!
