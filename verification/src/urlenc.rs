//! Verified percent-encoding of query strings for the search URLs.
//!
//! Unreserved characters (letters, digits, `-`, `.`, `_`, `~`) pass through;
//! every other character is replaced by the percent escapes of its UTF-8
//! bytes, which `vstd`'s `encode_utf8` describes.

use vstd::prelude::*;
use vstd::utf8::encode_utf8;

use crate::digits::{hex_digit, hex_digit_char, hex_value, lemma_hex_value_digit};
use crate::strbuild::{push_char, utf8_bytes_of_char};

verus! {

/// A character that a URL carries unescaped.
pub open spec fn is_unreserved(c: char) -> bool {
    (97 <= c as u32 && c as u32 <= 122) || (65 <= c as u32 && c as u32 <= 90) || (48 <= c as u32
        && c as u32 <= 57) || c == '-' || c == '.' || c == '_' || c == '~'
}

/// The percent escapes of a byte sequence: `%XX` for each byte.
pub open spec fn percent_escapes(bytes: Seq<u8>) -> Seq<char>
    decreases bytes.len(),
{
    if bytes.len() == 0 {
        Seq::<char>::empty()
    } else {
        seq!['%', hex_digit((bytes[0] / 16) as nat), hex_digit((bytes[0] % 16) as nat)]
            + percent_escapes(bytes.drop_first())
    }
}

/// How one character appears in the encoded string.
pub open spec fn percent_encode_char(c: char) -> Seq<char> {
    if is_unreserved(c) {
        seq![c]
    } else {
        percent_escapes(encode_utf8(seq![c]))
    }
}

/// The percent-encoded form of a whole string.
pub open spec fn percent_encoded(s: Seq<char>) -> Seq<char>
    decreases s.len(),
{
    if s.len() == 0 {
        Seq::<char>::empty()
    } else {
        percent_encode_char(s[0]) + percent_encoded(s.drop_first())
    }
}

/// The byte sequence a percent-encoded string stands for: each `%XX`
/// triple yields one byte, every other character its own code.
pub open spec fn percent_decoded(s: Seq<char>) -> Seq<u8>
    decreases s.len(),
{
    if s.len() == 0 {
        Seq::<u8>::empty()
    } else if s[0] == '%' {
        if s.len() >= 3 {
            seq![(hex_value(s[1]) * 16 + hex_value(s[2])) as u8] + percent_decoded(s.skip(3))
        } else {
            Seq::<u8>::empty()
        }
    } else {
        seq![s[0] as u8] + percent_decoded(s.drop_first())
    }
}

/// Escaping a byte sequence extended by one byte appends that byte's
/// escape triple.
pub proof fn lemma_percent_escapes_snoc(bytes: Seq<u8>, b: u8)
    ensures
        percent_escapes(bytes.push(b)) == percent_escapes(bytes) + seq![
            '%',
            hex_digit((b / 16) as nat),
            hex_digit((b % 16) as nat),
        ],
    decreases bytes.len(),
{
    if bytes.len() == 0 {
        assert(bytes.push(b).drop_first() =~= bytes);
        assert(percent_escapes(bytes.push(b)) =~= percent_escapes(bytes) + seq![
            '%',
            hex_digit((b / 16) as nat),
            hex_digit((b % 16) as nat),
        ]);
    } else {
        lemma_percent_escapes_snoc(bytes.drop_first(), b);
        assert(bytes.push(b).drop_first() =~= bytes.drop_first().push(b));
        assert(percent_escapes(bytes.push(b)) =~= percent_escapes(bytes) + seq![
            '%',
            hex_digit((b / 16) as nat),
            hex_digit((b % 16) as nat),
        ]);
    }
}

/// Encoding a string extended by one character appends that character's
/// encoded form.
pub proof fn lemma_percent_encoded_snoc(s: Seq<char>, c: char)
    ensures
        percent_encoded(s.push(c)) == percent_encoded(s) + percent_encode_char(c),
    decreases s.len(),
{
    if s.len() == 0 {
        assert(s.push(c).drop_first() =~= s);
        assert(percent_encoded(s.push(c)) =~= percent_encoded(s) + percent_encode_char(c));
    } else {
        lemma_percent_encoded_snoc(s.drop_first(), c);
        assert(s.push(c).drop_first() =~= s.drop_first().push(c));
        assert(percent_encoded(s.push(c)) =~= percent_encoded(s) + percent_encode_char(c));
    }
}

/// Decoding the escapes of a byte sequence, whatever follows them, yields
/// those bytes before what the rest decodes to.
proof fn lemma_decode_escapes(bytes: Seq<u8>, t: Seq<char>)
    ensures
        percent_decoded(percent_escapes(bytes) + t) == bytes + percent_decoded(t),
    decreases bytes.len(),
{
    if bytes.len() == 0 {
        assert(percent_escapes(bytes) + t =~= t);
        assert(percent_decoded(percent_escapes(bytes) + t) =~= bytes + percent_decoded(t));
    } else {
        let b = bytes[0];
        lemma_decode_escapes(bytes.drop_first(), t);
        lemma_hex_value_digit((b / 16) as nat);
        lemma_hex_value_digit((b % 16) as nat);
        let s = percent_escapes(bytes) + t;
        assert(s[0] == '%');
        assert(s[1] == hex_digit((b / 16) as nat));
        assert(s[2] == hex_digit((b % 16) as nat));
        assert(hex_value(s[1]) * 16 + hex_value(s[2]) == b as nat);
        assert(s.skip(3) =~= percent_escapes(bytes.drop_first()) + t);
        assert(percent_decoded(s) =~= bytes + percent_decoded(t));
    }
}

/// Decoding one unreserved character, whatever follows it, yields its own
/// code before what the rest decodes to.
proof fn lemma_decode_unreserved(c: char, t: Seq<char>)
    requires
        is_unreserved(c),
    ensures
        percent_decoded(seq![c] + t) == seq![c as u8] + percent_decoded(t),
{
    let s = seq![c] + t;
    assert(s[0] == c);
    assert(c != '%');
    assert(s.drop_first() =~= t);
    assert(percent_decoded(s) =~= seq![c as u8] + percent_decoded(t));
}

/// An unreserved character is ASCII, so its UTF-8 encoding is its own code
/// as a single byte.
proof fn lemma_unreserved_scalar(c: char)
    requires
        is_unreserved(c),
    ensures
        vstd::utf8::encode_scalar(c as u32) == seq![c as u8],
{
    let u = c as u32;
    assert(vstd::utf8::has_width_1_encoding(u));
    assert(u as u8 == vstd::utf8::leading_byte_width_1(u)) by (bit_vector)
        requires
            vstd::utf8::has_width_1_encoding(u),
    ;
    assert(vstd::utf8::encode_scalar(u) =~= seq![c as u8]);
}

/// Decoding the percent-encoded form of any string yields exactly the
/// string's UTF-8 bytes: the encoding loses nothing a decoder needs.
pub proof fn lemma_percent_encode_decode(s: Seq<char>)
    ensures
        percent_decoded(percent_encoded(s)) == encode_utf8(s),
    decreases s.len(),
{
    if s.len() == 0 {
        assert(percent_decoded(percent_encoded(s)) =~= encode_utf8(s));
    } else {
        lemma_percent_encode_decode(s.drop_first());
        let c = s[0];
        if is_unreserved(c) {
            lemma_decode_unreserved(c, percent_encoded(s.drop_first()));
            lemma_unreserved_scalar(c);
            assert(percent_encoded(s) =~= seq![c] + percent_encoded(s.drop_first()));
            assert(percent_decoded(percent_encoded(s)) =~= encode_utf8(s));
        } else {
            lemma_decode_escapes(encode_utf8(seq![c]), percent_encoded(s.drop_first()));
            let one = seq![c];
            assert(one.len() == 1 && one[0] == c);
            assert(one.drop_first() =~= Seq::<char>::empty());
            assert(encode_utf8(one.drop_first()) =~= Seq::<u8>::empty());
            assert(encode_utf8(one) =~= vstd::utf8::encode_scalar(c as u32));
            assert(percent_decoded(percent_encoded(s)) =~= encode_utf8(s));
        }
    }
}

/// Every hexadecimal digit character is itself unreserved.
proof fn lemma_hex_digit_unreserved(d: nat)
    requires
        d < 16,
    ensures
        is_unreserved(hex_digit(d)),
{
}

/// Every character of a byte sequence's percent escapes is a percent sign
/// or an unreserved character.
pub proof fn lemma_percent_escapes_safe(bytes: Seq<u8>)
    ensures
        forall|i: int|
            0 <= i < percent_escapes(bytes).len() ==> (is_unreserved(
                #[trigger] percent_escapes(bytes)[i],
            ) || percent_escapes(bytes)[i] == '%'),
    decreases bytes.len(),
{
    if bytes.len() > 0 {
        lemma_percent_escapes_safe(bytes.drop_first());
        lemma_hex_digit_unreserved((bytes[0] / 16) as nat);
        lemma_hex_digit_unreserved((bytes[0] % 16) as nat);
        assert forall|i: int|
            0 <= i < percent_escapes(bytes).len() implies (is_unreserved(
            #[trigger] percent_escapes(bytes)[i],
        ) || percent_escapes(bytes)[i] == '%') by {
            if i >= 3 {
                assert(percent_escapes(bytes)[i] == percent_escapes(bytes.drop_first())[i - 3]);
            }
        }
    }
}

/// Every character of a percent-encoded string is a percent sign or an
/// unreserved character, so the encoded query carries no reserved URL
/// character.
pub proof fn lemma_percent_encoded_safe(s: Seq<char>)
    ensures
        forall|i: int|
            0 <= i < percent_encoded(s).len() ==> (is_unreserved(
                #[trigger] percent_encoded(s)[i],
            ) || percent_encoded(s)[i] == '%'),
    decreases s.len(),
{
    if s.len() > 0 {
        lemma_percent_encoded_safe(s.drop_first());
        lemma_percent_escapes_safe(encode_utf8(seq![s[0]]));
        let head = percent_encode_char(s[0]);
        assert forall|i: int|
            0 <= i < percent_encoded(s).len() implies (is_unreserved(
            #[trigger] percent_encoded(s)[i],
        ) || percent_encoded(s)[i] == '%') by {
            if i >= head.len() {
                assert(percent_encoded(s)[i] == percent_encoded(s.drop_first())[i - head.len()]);
            } else {
                assert(percent_encoded(s)[i] == head[i]);
            }
        }
    }
}

/// Appends the percent escapes of `bytes` to `out`.
fn push_percent_escapes(out: &mut String, bytes: &Vec<u8>)
    ensures
        final(out)@ == old(out)@ + percent_escapes(bytes@),
{
    let mut j: usize = 0;
    while j < bytes.len()
        invariant
            j <= bytes@.len(),
            out@ == old(out)@ + percent_escapes(bytes@.take(j as int)),
        decreases bytes@.len() - j,
    {
        let b = bytes[j];
        push_char(out, '%');
        push_char(out, hex_digit_char(b / 16));
        push_char(out, hex_digit_char(b % 16));
        proof {
            lemma_percent_escapes_snoc(bytes@.take(j as int), bytes@[j as int]);
            assert(bytes@.take(j as int).push(bytes@[j as int]) =~= bytes@.take(j as int + 1));
            assert(out@ =~= old(out)@ + percent_escapes(bytes@.take(j as int + 1)));
        }
        j = j + 1;
    }
    proof {
        assert(bytes@.take(bytes@.len() as int) =~= bytes@);
    }
}

/// Whether a character may stand unescaped.
fn char_is_unreserved(c: char) -> (r: bool)
    ensures
        r == is_unreserved(c),
{
    let u = c as u32;
    (97 <= u && u <= 122) || (65 <= u && u <= 90) || (48 <= u && u <= 57) || c == '-' || c == '.'
        || c == '_' || c == '~'
}

/// The percent-encoded form of `s`.
pub fn percent_encode(s: &str) -> (r: String)
    ensures
        r@ == percent_encoded(s@),
{
    let n = s.unicode_len();
    let mut out = String::new();
    let mut i: usize = 0;
    while i < n
        invariant
            i <= n,
            n == s@.len(),
            out@ == percent_encoded(s@.take(i as int)),
        decreases n - i,
    {
        let c = s.get_char(i);
        if char_is_unreserved(c) {
            push_char(&mut out, c);
        } else {
            let bytes = utf8_bytes_of_char(c);
            push_percent_escapes(&mut out, &bytes);
        }
        proof {
            lemma_percent_encoded_snoc(s@.take(i as int), s@[i as int]);
            assert(s@.take(i as int).push(s@[i as int]) =~= s@.take(i as int + 1));
            assert(out@ =~= percent_encoded(s@.take(i as int + 1)));
        }
        i = i + 1;
    }
    proof {
        assert(s@.take(n as int) =~= s@);
    }
    out
}

} // verus!
