//! Wire encodings the API uses: JSON string arrays, form-urlencoded pairs
//! and HTTP header-value validity. Each is computed by the outside crate the
//! protocol relies on; the specifications below state the exact output.

use vstd::prelude::*;
use vstd::utf8::*;
use crate::text::digit_char;

verus! {

/// `sep`-separated concatenation of `items`.
pub open spec fn join(items: Seq<Seq<char>>, sep: Seq<char>) -> Seq<char>
    decreases items.len(),
{
    if items.len() == 0 {
        seq![]
    } else if items.len() == 1 {
        items[0]
    } else {
        join(items.drop_last(), sep) + sep + items.last()
    }
}

/// The views of a list of strings.
pub open spec fn strings_view(list: Seq<String>) -> Seq<Seq<char>> {
    list.map_values(|s: String| s@)
}

/// The views of a list of string pairs.
pub open spec fn pairs_view(list: Seq<(String, String)>) -> Seq<(Seq<char>, Seq<char>)> {
    list.map_values(|p: (String, String)| (p.0@, p.1@))
}

// ---------------------------------------------------------------- JSON

/// Lower-case hexadecimal digit for `d` (0..=15).
pub open spec fn hex_lower(d: int) -> char {
    if d < 10 {
        digit_char(d)
    } else {
        ((d - 10 + 97) as u32) as char
    }
}

/// Upper-case hexadecimal digit for `d` (0..=15).
pub open spec fn hex_upper(d: int) -> char {
    if d < 10 {
        digit_char(d)
    } else {
        ((d - 10 + 65) as u32) as char
    }
}

/// How a JSON string literal writes one character: quote and backslash are
/// escaped, the control characters get their short escape where JSON has
/// one and `\u00XX` (lower-case hex) otherwise; every other character is
/// written as it is.
pub open spec fn json_escape_char(c: char) -> Seq<char> {
    let u = c as u32;
    if c == '"' {
        seq!['\\', '"']
    } else if c == '\\' {
        seq!['\\', '\\']
    } else if u == 8 {
        seq!['\\', 'b']
    } else if u == 9 {
        seq!['\\', 't']
    } else if u == 10 {
        seq!['\\', 'n']
    } else if u == 12 {
        seq!['\\', 'f']
    } else if u == 13 {
        seq!['\\', 'r']
    } else if u < 32 {
        seq!['\\', 'u', '0', '0', hex_lower((u / 16) as int), hex_lower((u % 16) as int)]
    } else {
        seq![c]
    }
}

/// The escaped body of a JSON string literal.
pub open spec fn json_escape(s: Seq<char>) -> Seq<char>
    decreases s.len(),
{
    if s.len() == 0 {
        seq![]
    } else {
        json_escape(s.drop_last()) + json_escape_char(s.last())
    }
}

/// A JSON string literal for `s`.
pub open spec fn json_string(s: Seq<char>) -> Seq<char> {
    seq!['"'] + json_escape(s) + seq!['"']
}

/// A compact JSON array of string literals.
pub open spec fn json_string_array(list: Seq<Seq<char>>) -> Seq<char> {
    seq!['['] + join(list.map_values(|s: Seq<char>| json_string(s)), seq![',']) + seq![']']
}

/// `serde_json::to_string` on a list of strings: a compact JSON array of
/// string literals, escaped as `json_escape_char` says. Serialising a
/// `Vec<String>` into memory cannot fail.
#[verifier::external_body]
pub(crate) fn json_array_of(list: &Vec<String>) -> (r: String)
    ensures
        r@ == json_string_array(strings_view(list@)),
{
    serde_json::to_string(list).unwrap_or_default()
}

// ------------------------------------------------- form-urlencoded

/// Bytes that the form-urlencoded serializer writes unchanged.
pub open spec fn form_byte_unchanged(b: u8) -> bool {
    b == 42 || b == 45 || b == 46 || (48 <= b <= 57) || (65 <= b <= 90) || b == 95 || (97 <= b <= 122)
}

/// How the form-urlencoded serializer writes one byte: unchanged, `+` for a
/// space, `%XX` (upper-case hex) otherwise.
pub open spec fn form_byte(b: u8) -> Seq<char> {
    if form_byte_unchanged(b) {
        seq![(b as u32) as char]
    } else if b == 32 {
        seq!['+']
    } else {
        seq!['%', hex_upper((b / 16) as int), hex_upper((b % 16) as int)]
    }
}

/// Form-urlencoding of a byte sequence.
pub open spec fn form_bytes(bs: Seq<u8>) -> Seq<char>
    decreases bs.len(),
{
    if bs.len() == 0 {
        seq![]
    } else {
        form_bytes(bs.drop_last()) + form_byte(bs.last())
    }
}

/// Form-urlencoding of a text: its UTF-8 bytes, encoded one by one.
pub open spec fn form_component(s: Seq<char>) -> Seq<char> {
    form_bytes(encode_utf8(s))
}

/// `name=value`, both encoded.
pub open spec fn form_pair(p: (Seq<char>, Seq<char>)) -> Seq<char> {
    form_component(p.0) + seq!['='] + form_component(p.1)
}

/// An `application/x-www-form-urlencoded` text: the encoded pairs joined
/// by `&`.
pub open spec fn form_encoded(pairs: Seq<(Seq<char>, Seq<char>)>) -> Seq<char> {
    join(pairs.map_values(|p: (Seq<char>, Seq<char>)| form_pair(p)), seq!['&'])
}

/// `serde_urlencoded::to_string` on a list of string pairs: each pair
/// written as `name=value` through the form-urlencoded byte serializer,
/// pairs joined by `&`. A list of string pairs is always accepted.
#[verifier::external_body]
pub(crate) fn form_encode(pairs: &Vec<(String, String)>) -> (r: String)
    ensures
        r@ == form_encoded(pairs_view(pairs@)),
{
    serde_urlencoded::to_string(pairs).unwrap_or_default()
}

// ------------------------------------------------------ header values

/// Whether `s` may stand as an HTTP header value: every character is a tab
/// or at least a space and not DEL (bytes of non-ASCII characters are all
/// accepted).
pub open spec fn header_value_ok(s: Seq<char>) -> bool {
    forall|i: int|
        0 <= i < s.len() ==> ((#[trigger] s[i] as u32) >= 32 && (s[i] as u32) != 127) || (s[i] as u32) == 9
}

/// `reqwest::header::HeaderValue::from_str(s).is_ok()`: the value is
/// accepted exactly when every byte is a tab or in 32..=255 except 127.
#[verifier::external_body]
pub(crate) fn header_value_valid(s: &str) -> (b: bool)
    ensures
        b == header_value_ok(s@),
{
    reqwest::header::HeaderValue::from_str(s).is_ok()
}

} // verus!
