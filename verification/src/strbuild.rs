//! Trusted string-building primitives that `vstd` does not specify itself.

use vstd::prelude::*;
use vstd::utf8::encode_utf8;

verus! {

/// Relies on `String::push`: appends exactly one character at the end of
/// the string.
#[verifier::external_body]
pub(crate) fn push_char(s: &mut String, c: char)
    ensures
        final(s)@ == old(s)@ + seq![c],
{
    s.push(c);
}

/// Relies on `char::encode_utf8`: writes the character's UTF-8 encoding,
/// the byte sequence that `vstd`'s `encode_utf8` gives for it, and returns
/// exactly the written bytes.
#[verifier::external_body]
pub(crate) fn utf8_bytes_of_char(c: char) -> (r: Vec<u8>)
    ensures
        r@ == encode_utf8(seq![c]),
{
    let mut buf = [0u8; 4];
    c.encode_utf8(&mut buf).as_bytes().to_vec()
}

} // verus!
