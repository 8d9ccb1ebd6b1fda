//! JSON text: the quoting of a string as serde_json writes it, which every
//! response body and log record the server writes shares.
use vstd::prelude::*;

verus! {

/// A lowercase hexadecimal digit, for `d` below sixteen.
pub open spec fn lower_hex(d: nat) -> char {
    if d < 10 {
        (48 + d) as char
    } else {
        (87 + d) as char
    }
}

/// How serde_json writes one character inside a string literal: a quote and
/// a backslash behind a backslash; backspace, tab, line feed, form feed and
/// carriage return as `\b`, `\t`, `\n`, `\f` and `\r`; every other
/// character below U+0020 as `\u00` and two lowercase hex digits; any
/// other character as itself.
pub open spec fn escaped(c: char) -> Seq<char> {
    if c == '"' {
        seq!['\\', '"']
    } else if c == '\\' {
        seq!['\\', '\\']
    } else if c == '\u{8}' {
        seq!['\\', 'b']
    } else if c == '\t' {
        seq!['\\', 't']
    } else if c == '\n' {
        seq!['\\', 'n']
    } else if c == '\u{c}' {
        seq!['\\', 'f']
    } else if c == '\r' {
        seq!['\\', 'r']
    } else if (c as u32) < 0x20 {
        seq!['\\', 'u', '0', '0', lower_hex((c as u32 / 16) as nat), lower_hex((c as u32 % 16) as nat)]
    } else {
        seq![c]
    }
}

/// Each character of `text` as serde_json writes it inside a literal.
pub open spec fn escaped_text(text: Seq<char>) -> Seq<char>
    decreases text.len(),
{
    if text.len() == 0 {
        Seq::empty()
    } else {
        escaped_text(text.drop_last()) + escaped(text.last())
    }
}

/// The JSON string literal serde_json writes for `text`: its escaped
/// characters between quotes. Proofs about the texts that carry it treat it
/// as a whole, so it is unfolded only where asked for.
#[verifier::opaque]
pub open spec fn json_quoted(text: Seq<char>) -> Seq<char> {
    seq!['"'] + escaped_text(text) + seq!['"']
}

/// serde_json's `to_string` on a string: its JSON literal, which writing to
/// memory cannot fail to produce.
#[verifier::external_body]
pub fn quote(text: &str) -> (r: String)
    ensures
        r@ == json_quoted(text@),
{
    match serde_json::to_string(text) {
        Ok(literal) => literal,
        Err(_) => String::new(),
    }
}

} // verus!
