//! Conversions between bytes and text that the standard library performs.

use vstd::prelude::*;
use vstd::string::*;
use vstd::utf8::*;

verus! {

/// Calls `String::from_utf8` of the standard library and drops the detail of
/// its error. Trusted: the call succeeds exactly on well-formed UTF-8, and the
/// string it gives holds the characters that the bytes encode.
#[verifier::external_body]
pub(crate) fn string_from_utf8(bytes: Vec<u8>) -> (r: Option<String>)
    ensures
        r is Some <==> valid_utf8(bytes@),
        r is Some ==> r->0@ == decode_utf8(bytes@),
{
    String::from_utf8(bytes).ok()
}

/// Whether two strings hold the same characters.
pub fn str_eq(a: &str, b: &str) -> (same: bool)
    ensures
        same == (a@ == b@),
{
    broadcast use {encode_utf8_decode_utf8, encode_utf8_valid_utf8};

    let x = a.as_bytes();
    let y = b.as_bytes();
    if x.len() != y.len() {
        return false;
    }
    let mut k: usize = 0;
    while k < x.len()
        invariant
            k <= x.len(),
            x.len() == y.len(),
            x@ == encode_utf8(a@),
            y@ == encode_utf8(b@),
            forall|m: int| 0 <= m < k ==> x@[m] == y@[m],
        decreases x.len() - k,
    {
        if x[k] != y[k] {
            return false;
        }
        k += 1;
    }
    assert(x@ =~= y@);
    assert(decode_utf8(encode_utf8(a@)) == a@);
    assert(decode_utf8(encode_utf8(b@)) == b@);
    true
}

/// The lower-case form of a text, as the standard library makes it.
pub uninterp spec fn lowercase(text: Seq<char>) -> Seq<char>;

/// Calls `str::to_lowercase` of the standard library. Trusted: the result is
/// a function of the text alone, named [`lowercase`].
#[verifier::external_body]
pub(crate) fn to_lowercase(text: &str) -> (lower: String)
    ensures
        lower@ == lowercase(text@),
{
    text.to_lowercase()
}

/// Calls `str::replace` of the standard library to take every `_` out of a
/// text. Trusted: the result holds the other characters of the text, in their
/// order.
#[verifier::external_body]
pub(crate) fn remove_underscores(text: &str) -> (stripped: String)
    ensures
        stripped@ == text@.filter(|c: char| c != '_'),
{
    text.replace('_', "")
}

/// Calls `concat` of slices of the standard library on the two texts.
/// Trusted: the result holds the characters of `first` followed by those of
/// `second`.
#[verifier::external_body]
pub(crate) fn concat(first: &str, second: &str) -> (joined: String)
    ensures
        joined@ == first@ + second@,
{
    [first, second].concat()
}

} // verus!
