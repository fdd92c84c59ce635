//! Percent-decoding of URL components, done by picoserve.
use vstd::prelude::*;

verus! {

/// What picoserve makes of a url-encoded component: `None` where the bytes
/// are not UTF-8, an escape is malformed, or the decoded text exceeds 1024
/// bytes.
pub uninterp spec fn url_decoded(s: Seq<u8>) -> Option<Seq<u8>>;

/// A byte that stands for itself in a url-encoded component.
pub open spec fn is_plain_byte(b: u8) -> bool {
    b < 128 && b != 37 && b != 43
}

pub open spec fn all_plain(s: Seq<u8>) -> bool {
    forall|i: int| 0 <= i < s.len() ==> is_plain_byte(#[trigger] s[i])
}

/// `F` or `f`.
pub open spec fn is_hex_f(b: u8) -> bool {
    b == 70 || b == 102
}

/// The escape `%FF` (in any case) starts at `i`.
pub open spec fn ff_escape_at(s: Seq<u8>, i: int) -> bool {
    0 <= i && i + 2 < s.len() && s[i] == 37 && is_hex_f(s[i + 1]) && is_hex_f(s[i + 2])
}

/// No `%FF` escape stands in `s`. picoserve's decoder cannot take that
/// escape: it shifts a byte by its eight leading ones, which overflows. Where
/// the escape is not reached as an escape, decoding fails before it, so a
/// component that holds it never decodes.
pub open spec fn no_ff_escape(s: Seq<u8>) -> bool {
    forall|i: int| !#[trigger] ff_escape_at(s, i)
}

/// Tells whether `s` holds a `%FF` escape.
pub fn has_ff_escape(s: &[u8]) -> (r: bool)
    ensures
        r == !no_ff_escape(s@),
{
    let mut i: usize = 0;
    while i < s.len() && s.len() - i > 2
        invariant
            i <= s@.len(),
            forall|j: int| 0 <= j < i ==> !ff_escape_at(s@, j),
        decreases s.len() - i,
    {
        if s[i] == 37u8 && (s[i + 1] == 70u8 || s[i + 1] == 102u8) && (s[i + 2] == 70u8 || s[i
            + 2] == 102u8) {
            assert(ff_escape_at(s@, i as int));
            return true;
        }
        i = i + 1;
    }
    assert forall|j: int| !ff_escape_at(s@, j) by {
        if 0 <= j < i {
        }
    }
    false
}

/// Relies on `core::str::from_utf8` and picoserve's
/// `UrlEncodedString::try_into_string::<1024>`, which turns `%XX` escapes and
/// `+` into the characters they stand for and copies every other character.
/// The decoder panics on a `%FF` escape, which `requires` leaves out.
#[verifier::external_body]
pub(crate) fn url_decode(s: &[u8]) -> (r: Option<Vec<u8>>)
    requires
        no_ff_escape(s@),
    ensures
        r is Some <==> url_decoded(s@) is Some,
        r is Some ==> r->0@ == url_decoded(s@)->0,
        s@.len() <= 1024 && all_plain(s@) ==> r is Some && r->0@ == s@,
{
    match core::str::from_utf8(s) {
        Ok(text) => match picoserve::url_encoded::UrlEncodedString(text).try_into_string::<1024>() {
            Ok(decoded) => Some(decoded.as_bytes().to_vec()),
            Err(_) => None,
        },
        Err(_) => None,
    }
}

} // verus!
