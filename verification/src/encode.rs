use vstd::prelude::*;
use crate::text::{joined, views};

verus! {

/// The lower-case hexadecimal digit for `d` (below sixteen).
pub open spec fn hex_digit(d: nat) -> char {
    if d < 10 {
        (48 + d) as char
    } else {
        (87 + d) as char
    }
}

/// How one character is written inside a JSON string: the quote, the
/// backslash and the control characters are escaped, everything else is
/// written as is.
pub open spec fn json_escaped_char(c: char) -> Seq<char> {
    let u: u32 = c as u32;
    if c == '"' {
        seq!['\\', '"']
    } else if c == '\\' {
        seq!['\\', '\\']
    } else if u == 0x08 {
        seq!['\\', 'b']
    } else if u == 0x09 {
        seq!['\\', 't']
    } else if u == 0x0A {
        seq!['\\', 'n']
    } else if u == 0x0C {
        seq!['\\', 'f']
    } else if u == 0x0D {
        seq!['\\', 'r']
    } else if u < 0x20 {
        seq!['\\', 'u', '0', '0', hex_digit((u / 16) as nat), hex_digit((u % 16) as nat)]
    } else {
        seq![c]
    }
}

/// The characters of `s`, each escaped for a JSON string.
pub open spec fn json_escaped(s: Seq<char>) -> Seq<char>
    decreases s.len(),
{
    if s.len() == 0 {
        Seq::empty()
    } else {
        json_escaped_char(s[0]) + json_escaped(s.drop_first())
    }
}

/// `s` as a JSON string literal, quotes included.
pub open spec fn json_string_literal(s: Seq<char>) -> Seq<char> {
    seq!['"'] + json_escaped(s) + seq!['"']
}

/// A list of strings as a compact JSON array of string literals.
pub open spec fn json_string_array(items: Seq<Seq<char>>) -> Seq<char> {
    seq!['['] + joined(items.map_values(|s: Seq<char>| json_string_literal(s)), seq![',']) + seq![']']
}

/// `serde_json::to_string` on a `&str`. The serializer writes a string as a
/// double-quoted literal in which `"` and `\` are escaped with a backslash,
/// backspace, tab, line feed, form feed and carriage return get their short
/// escapes, the other characters below U+0020 are written `\u00xx` with
/// lower-case hex digits, and every other character is copied. It writes into
/// a `Vec<u8>`, whose writes do not fail, so the call returns `Ok`.
#[verifier::external_body]
pub(crate) fn to_json_string(s: &str) -> (r: Option<String>)
    ensures
        r is Some,
        r.unwrap()@ == json_string_literal(s@),
{
    serde_json::to_string(s).ok()
}

/// `serde_json::to_string` on a `Vec<String>`. The compact serializer writes
/// `[`, the strings as JSON string literals (escaped as for a single string)
/// separated by `,` with no spaces, and `]`. It writes into a `Vec<u8>`, whose
/// writes do not fail, so the call returns `Ok`.
#[verifier::external_body]
pub(crate) fn to_json_string_array(items: &Vec<String>) -> (r: Option<String>)
    ensures
        r is Some,
        r.unwrap()@ == json_string_array(views(items@)),
{
    serde_json::to_string(items).ok()
}

} // verus!
