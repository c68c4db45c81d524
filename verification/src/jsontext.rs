//! Verified construction of the JSON request bodies the model server takes.
//!
//! The bodies are fixed-shape objects over caller-supplied strings, so the
//! only moving part is the escaping of those strings. Escaping follows the
//! JSON grammar: quote and backslash get a backslash escape, control
//! characters a `\u00XX` escape, everything else passes through.

use vstd::prelude::*;

use crate::digits::{hex_digit, hex_digit_char, hex_value, lemma_hex_value_digit};
use crate::strbuild::push_char;

verus! {

/// How one character appears inside a JSON string literal.
pub open spec fn json_escape_char(c: char) -> Seq<char> {
    if c == '"' {
        seq!['\\', '"']
    } else if c == '\\' {
        seq!['\\', '\\']
    } else if (c as u32) < 32 {
        seq!['\\', 'u', '0', '0', hex_digit((c as u32 / 16) as nat), hex_digit(
            (c as u32 % 16) as nat,
        )]
    } else {
        seq![c]
    }
}

/// How a whole string appears inside a JSON string literal.
pub open spec fn json_escaped(s: Seq<char>) -> Seq<char>
    decreases s.len(),
{
    if s.len() == 0 {
        Seq::<char>::empty()
    } else {
        json_escape_char(s[0]) + json_escaped(s.drop_first())
    }
}

/// A JSON string literal: the escaped text between two quotes.
pub open spec fn json_quoted(s: Seq<char>) -> Seq<char> {
    seq!['"'] + json_escaped(s) + seq!['"']
}

/// Escaping a string extended by one character appends that character's
/// escape to the escaped string.
pub proof fn lemma_json_escaped_snoc(s: Seq<char>, c: char)
    ensures
        json_escaped(s.push(c)) == json_escaped(s) + json_escape_char(c),
    decreases s.len(),
{
    if s.len() == 0 {
        assert(s.push(c).drop_first() =~= s);
        assert(json_escaped(s.push(c)) =~= json_escaped(s) + json_escape_char(c));
    } else {
        lemma_json_escaped_snoc(s.drop_first(), c);
        assert(s.push(c).drop_first() =~= s.drop_first().push(c));
        assert(json_escaped(s.push(c)) =~= json_escaped(s) + json_escape_char(c));
    }
}

/// The text a JSON-escaped string stands for: a backslash pair yields its
/// second character, a `\uXXXX` escape the character with that code, and
/// every other character itself.
pub open spec fn json_unescaped(s: Seq<char>) -> Seq<char>
    decreases s.len(),
{
    if s.len() == 0 {
        Seq::<char>::empty()
    } else if s[0] == '\\' {
        if s.len() >= 6 && s[1] == 'u' {
            seq![
                ((hex_value(s[2]) * 4096 + hex_value(s[3]) * 256 + hex_value(s[4]) * 16
                    + hex_value(s[5])) as u32) as char,
            ] + json_unescaped(s.skip(6))
        } else if s.len() >= 2 {
            seq![s[1]] + json_unescaped(s.skip(2))
        } else {
            Seq::<char>::empty()
        }
    } else {
        seq![s[0]] + json_unescaped(s.drop_first())
    }
}

/// Reading an escaped string back yields the original text: escaping loses
/// nothing, so the server sees exactly the model name, prompt or modelfile
/// the caller passed.
pub proof fn lemma_json_escape_round_trip(s: Seq<char>)
    ensures
        json_unescaped(json_escaped(s)) == s,
    decreases s.len(),
{
    if s.len() == 0 {
        assert(json_unescaped(json_escaped(s)) =~= s);
    } else {
        lemma_json_escape_round_trip(s.drop_first());
        let c = s[0];
        let head = json_escape_char(c);
        let rest = json_escaped(s.drop_first());
        if c == '"' || c == '\\' {
            assert((head + rest).skip(2) =~= rest);
            assert(json_unescaped(head + rest) =~= seq![c] + json_unescaped(rest));
        } else if (c as u32) < 32 {
            lemma_hex_value_digit((c as u32 / 16) as nat);
            lemma_hex_value_digit((c as u32 % 16) as nat);
            vstd::utf8::char_u32_cast(c, c as u32);
            assert((head + rest).skip(6) =~= rest);
            assert(json_unescaped(head + rest) =~= seq![c] + json_unescaped(rest));
        } else {
            assert((head + rest).drop_first() =~= rest);
            assert(json_unescaped(head + rest) =~= seq![c] + json_unescaped(rest));
        }
        assert(seq![c] + s.drop_first() =~= s);
    }
}

/// No hexadecimal digit character is a control character.
proof fn lemma_hex_digit_tame(d: nat)
    requires
        d < 16,
    ensures
        hex_digit(d) as u32 >= 32,
{
}

/// No character of an escaped string is a raw control character, so a
/// caller-supplied text cannot break the body's framing with a newline or
/// any other control character.
pub proof fn lemma_json_escaped_no_control(s: Seq<char>)
    ensures
        forall|i: int|
            0 <= i < json_escaped(s).len() ==> (#[trigger] json_escaped(s)[i]) as u32 >= 32,
    decreases s.len(),
{
    if s.len() > 0 {
        lemma_json_escaped_no_control(s.drop_first());
        let head = json_escape_char(s[0]);
        if s[0] != '"' && s[0] != '\\' && (s[0] as u32) < 32 {
            lemma_hex_digit_tame((s[0] as u32 / 16) as nat);
            lemma_hex_digit_tame((s[0] as u32 % 16) as nat);
        }
        assert forall|i: int|
            0 <= i < json_escaped(s).len() implies (#[trigger] json_escaped(s)[i]) as u32 >= 32 by {
            if i >= head.len() {
                assert(json_escaped(s)[i] == json_escaped(s.drop_first())[i - head.len()]);
            } else {
                assert(json_escaped(s)[i] == head[i]);
            }
        }
    }
}

/// Appends the escaped form of `s` to `out`.
fn push_json_escaped(out: &mut String, s: &str)
    ensures
        final(out)@ == old(out)@ + json_escaped(s@),
{
    let n = s.unicode_len();
    let mut i: usize = 0;
    while i < n
        invariant
            i <= n,
            n == s@.len(),
            out@ == old(out)@ + json_escaped(s@.take(i as int)),
        decreases n - i,
    {
        let c = s.get_char(i);
        if c == '"' {
            push_char(out, '\\');
            push_char(out, '"');
        } else if c == '\\' {
            push_char(out, '\\');
            push_char(out, '\\');
        } else if (c as u32) < 32 {
            let u = c as u32;
            push_char(out, '\\');
            push_char(out, 'u');
            push_char(out, '0');
            push_char(out, '0');
            push_char(out, hex_digit_char((u / 16) as u8));
            push_char(out, hex_digit_char((u % 16) as u8));
        } else {
            push_char(out, c);
        }
        proof {
            lemma_json_escaped_snoc(s@.take(i as int), s@[i as int]);
            assert(s@.take(i as int).push(s@[i as int]) =~= s@.take(i as int + 1));
            assert(out@ =~= old(out)@ + json_escaped(s@.take(i as int + 1)));
        }
        i = i + 1;
    }
    proof {
        assert(s@.take(n as int) =~= s@);
    }
}

/// Appends the JSON string literal for `s` to `out`.
fn push_json_quoted(out: &mut String, s: &str)
    ensures
        final(out)@ == old(out)@ + json_quoted(s@),
{
    push_char(out, '"');
    push_json_escaped(out, s);
    push_char(out, '"');
    proof {
        assert(out@ =~= old(out)@ + json_quoted(s@));
    }
}

/// The body of a pull request for one model name.
pub open spec fn pull_body_spec(name: Seq<char>) -> Seq<char> {
    "{\"name\":"@ + json_quoted(name) + "}"@
}

/// Builds the body sent to the pull endpoint.
pub fn pull_body(name: &str) -> (r: String)
    ensures
        r@ == pull_body_spec(name@),
{
    let mut out = String::from_str("{\"name\":");
    push_json_quoted(&mut out, name);
    out.append("}");
    out
}

/// The body of a generate request: model, prompt, and streaming off.
pub open spec fn generate_body_spec(model: Seq<char>, prompt: Seq<char>) -> Seq<char> {
    "{\"model\":"@ + json_quoted(model) + ",\"prompt\":"@ + json_quoted(prompt)
        + ",\"stream\":false}"@
}

/// Builds the body sent to the generate endpoint.
pub fn generate_body(model: &str, prompt: &str) -> (r: String)
    ensures
        r@ == generate_body_spec(model@, prompt@),
{
    let mut out = String::from_str("{\"model\":");
    push_json_quoted(&mut out, model);
    out.append(",\"prompt\":");
    push_json_quoted(&mut out, prompt);
    out.append(",\"stream\":false}");
    out
}

/// The body of a modelfile-creation request.
pub open spec fn create_body_spec(name: Seq<char>, modelfile: Seq<char>) -> Seq<char> {
    "{\"name\":"@ + json_quoted(name) + ",\"modelfile\":"@ + json_quoted(modelfile) + "}"@
}

/// Builds the body sent to the create endpoint.
pub fn create_body(name: &str, modelfile: &str) -> (r: String)
    ensures
        r@ == create_body_spec(name@, modelfile@),
{
    let mut out = String::from_str("{\"name\":");
    push_json_quoted(&mut out, name);
    out.append(",\"modelfile\":");
    push_json_quoted(&mut out, modelfile);
    out.append("}");
    out
}

} // verus!
