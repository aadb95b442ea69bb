//! Byte- and text-level rules shared by the proxy: which header values have a
//! textual form, ASCII case-insensitive comparison, and JSON string quoting.
use vstd::prelude::*;
use vstd::utf8::*;
use vstd::slice::slice_to_vec;

verus! {

/// A byte that may appear in a header value with a textual form: visible ASCII or a tab.
pub open spec fn is_visible_ascii(b: u8) -> bool {
    (32 <= b && b < 127) || b == 9
}

pub open spec fn all_visible_ascii(bytes: Seq<u8>) -> bool {
    forall|i: int| 0 <= i < bytes.len() ==> #[trigger] is_visible_ascii(bytes[i])
}

/// The textual form of a header value, if it has one.
pub open spec fn header_text(bytes: Seq<u8>) -> Option<Seq<char>> {
    if all_visible_ascii(bytes) {
        Some(decode_utf8(bytes))
    } else {
        None
    }
}

/// The textual form of a header value, or the empty text when it has none.
pub open spec fn header_text_or_empty(bytes: Seq<u8>) -> Seq<char> {
    match header_text(bytes) {
        Some(t) => t,
        None => Seq::empty(),
    }
}

/// ASCII lower-casing of a single byte.
pub open spec fn ascii_lower(b: u8) -> u8 {
    if 65 <= b && b <= 90 {
        (b + 32) as u8
    } else {
        b
    }
}

/// Equality of two byte strings up to ASCII case.
pub open spec fn eq_ignore_ascii_case(a: Seq<u8>, b: Seq<u8>) -> bool {
    &&& a.len() == b.len()
    &&& forall|i: int| 0 <= i < a.len() ==> #[trigger] ascii_lower(a[i]) == ascii_lower(b[i])
}

/// A header value has a textual form exactly when each of its bytes is in
/// 32..=126 or is a tab, and that form is its bytes decoded.
pub proof fn law_header_text_of_visible_bytes(bytes: Seq<u8>)
    ensures
        (forall|i: int|
            0 <= i < bytes.len() ==> (32 <= #[trigger] bytes[i] && bytes[i] <= 126) || bytes[i]
                == 9) ==> header_text(bytes) == Some(decode_utf8(bytes)),
        !(forall|i: int|
            0 <= i < bytes.len() ==> (32 <= #[trigger] bytes[i] && bytes[i] <= 126) || bytes[i]
                == 9) ==> header_text(bytes) is None,
{
    if forall|i: int|
        0 <= i < bytes.len() ==> (32 <= #[trigger] bytes[i] && bytes[i] <= 126) || bytes[i] == 9 {
        assert(all_visible_ascii(bytes));
    } else {
        let i = choose|i: int|
            0 <= i < bytes.len() && !((32 <= #[trigger] bytes[i] && bytes[i] <= 126) || bytes[i]
                == 9);
        assert(!is_visible_ascii(bytes[i]));
    }
}

/// `String::from_utf8` from std: the bytes decoded as UTF-8 when they are valid
/// UTF-8, and `None` otherwise.
#[verifier::external_body]
fn string_from_utf8(bytes: Vec<u8>) -> (r: Option<String>)
    ensures
        r is Some <==> valid_utf8(bytes@),
        r matches Some(s) ==> s@ == decode_utf8(bytes@),
{
    match String::from_utf8(bytes) {
        Ok(s) => Some(s),
        Err(_) => None,
    }
}

/// The JSON string literal that serde_json writes for a text: the text between
/// double quotes, with quotes, backslashes and control characters escaped.
pub uninterp spec fn json_string_literal(text: Seq<char>) -> Seq<char>;

/// `serde_json::to_string` on a string slice: its JSON string literal. Writing a
/// string into an in-memory buffer cannot fail in serde_json, so the error arm
/// is never taken.
#[verifier::external_body]
pub(crate) fn json_quote(text: &str) -> (r: String)
    ensures
        r@ == json_string_literal(text@),
{
    match serde_json::to_string(text) {
        Ok(s) => s,
        Err(_) => String::new(),
    }
}

/// `<str as PartialEq>::eq` from std: two string slices are equal exactly when
/// they hold the same characters.
#[verifier::external_body]
pub(crate) fn str_eq(a: &str, b: &str) -> (r: bool)
    ensures
        r == (a@ == b@),
{
    a == b
}

/// Whether every byte is visible ASCII or a tab.
pub fn is_visible_ascii_text(bytes: &[u8]) -> (r: bool)
    ensures
        r == all_visible_ascii(bytes@),
        r == (forall|i: int|
            0 <= i < bytes@.len() ==> (32 <= #[trigger] bytes@[i] && bytes@[i] <= 126) || bytes@[i]
                == 9),
{
    let mut i: usize = 0;
    while i < bytes.len()
        invariant
            i <= bytes@.len(),
            forall|j: int| 0 <= j < i ==> #[trigger] is_visible_ascii(bytes@[j]),
        decreases bytes@.len() - i,
    {
        let b = bytes[i];
        if !((32 <= b && b < 127) || b == 9) {
            assert(!is_visible_ascii(bytes@[i as int]));
            return false;
        }
        i = i + 1;
    }
    assert forall|j: int| 0 <= j < bytes@.len() implies (32 <= #[trigger] bytes@[j] && bytes@[j]
        <= 126) || bytes@[j] == 9 by {
        assert(is_visible_ascii(bytes@[j]));
    }
    true
}

/// The textual form of a header value: its characters when every byte is
/// visible ASCII or a tab, and `None` otherwise.
pub fn header_value_text(bytes: &[u8]) -> (r: Option<String>)
    ensures
        r matches Some(s) ==> header_text(bytes@) == Some(s@),
        r is None ==> header_text(bytes@) is None,
        (forall|i: int|
            0 <= i < bytes@.len() ==> (32 <= #[trigger] bytes@[i] && bytes@[i] <= 126) || bytes@[i]
                == 9) ==> (r matches Some(s) && s@ == decode_utf8(bytes@)),
        !(forall|i: int|
            0 <= i < bytes@.len() ==> (32 <= #[trigger] bytes@[i] && bytes@[i] <= 126) || bytes@[i]
                == 9) ==> r is None,
{
    if !is_visible_ascii_text(bytes) {
        return None;
    }
    proof {
        assert(bytes@.subrange(0, 0) =~= Seq::<u8>::empty());
        assert forall|i: int| 0 <= 0 <= i < bytes@.len() <= bytes@.len() implies #[trigger] is_leading_byte_width_1(bytes@[i]) by {
            assert(is_visible_ascii(bytes@[i]));
        }
        partial_valid_utf8_extend_ascii_block(bytes@, 0, bytes@.len() as int);
        assert(bytes@.subrange(0, bytes@.len() as int) =~= bytes@);
    }
    string_from_utf8(slice_to_vec(bytes))
}

/// The textual form of a header value, or the empty string when it has none.
pub fn header_value_text_or_empty(bytes: &[u8]) -> (r: String)
    ensures
        r@ == header_text_or_empty(bytes@),
{
    match header_value_text(bytes) {
        Some(s) => s,
        None => String::new(),
    }
}

/// Equality of two byte strings up to ASCII case.
pub fn bytes_eq_ignore_ascii_case(a: &[u8], b: &[u8]) -> (r: bool)
    ensures
        r == eq_ignore_ascii_case(a@, b@),
{
    if a.len() != b.len() {
        return false;
    }
    let mut i: usize = 0;
    while i < a.len()
        invariant
            a@.len() == b@.len(),
            i <= a@.len(),
            forall|j: int| 0 <= j < i ==> #[trigger] ascii_lower(a@[j]) == ascii_lower(b@[j]),
        decreases a@.len() - i,
    {
        let x = a[i];
        let y = b[i];
        let lx: u8 = if 65 <= x && x <= 90 { x + 32 } else { x };
        let ly: u8 = if 65 <= y && y <= 90 { y + 32 } else { y };
        if lx != ly {
            assert(ascii_lower(a@[i as int]) != ascii_lower(b@[i as int]));
            return false;
        }
        i = i + 1;
    }
    true
}

} // verus!
