use crate::text::opt_view;
use vstd::prelude::*;

verus! {

/// The lower-case hexadecimal digit of `n < 16`.
pub open spec fn hex_digit(n: nat) -> char {
    if n < 10 {
        (48 + n) as u8 as char
    } else {
        (87 + n) as u8 as char
    }
}

/// How one character is written inside a JSON string: a quote and a backslash
/// behind a backslash, the control characters below U+0020 by their short
/// escape or as `\u00` and two hexadecimal digits, and any other as itself.
pub open spec fn json_escape(c: char) -> Seq<char> {
    if c == '"' {
        seq!['\\', '"']
    } else if c == '\\' {
        seq!['\\', '\\']
    } else if c == '\u{8}' {
        seq!['\\', 'b']
    } else if c == '\t' {
        seq!['\\', 't']
    } else if c == '\n' {
        seq!['\\', 'n']
    } else if c == '\u{c}' {
        seq!['\\', 'f']
    } else if c == '\r' {
        seq!['\\', 'r']
    } else if (c as u32) < 0x20 {
        seq!['\\', 'u', '0', '0', hex_digit((c as u32 / 16) as nat), hex_digit((c as u32 % 16) as nat)]
    } else {
        seq![c]
    }
}

/// The characters of `text`, each written as inside a JSON string.
pub open spec fn json_escaped(text: Seq<char>) -> Seq<char>
    decreases text.len(),
{
    if text.len() == 0 {
        Seq::empty()
    } else {
        json_escaped(text.drop_last()) + json_escape(text.last())
    }
}

/// `text` as a JSON string: escaped, between quotes.
pub open spec fn json_quoted(text: Seq<char>) -> Seq<char> {
    seq!['"'] + json_escaped(text) + seq!['"']
}

/// Whether a text is a JSON document, as `serde_json` reads it.
pub uninterp spec fn json_well_formed(doc: Seq<char>) -> bool;

/// The string that a JSON document holds under a key at its top level, as
/// `serde_json` reads it.
pub uninterp spec fn json_field_text(doc: Seq<char>, key: Seq<char>) -> Option<Seq<char>>;

/// The string that a JSON document holds under `leaf`, in the object under
/// `item`, in the element `index` of the list under `list` at its top
/// level, as `serde_json` reads it.
pub uninterp spec fn json_nested_text(
    doc: Seq<char>,
    list: Seq<char>,
    index: usize,
    item: Seq<char>,
    leaf: Seq<char>,
) -> Option<Seq<char>>;

/// `serde_json::to_string` on a string slice: the text between quotes, with
/// the escapes of `json_escape`. Serialising a string cannot fail.
#[verifier::external_body]
pub(crate) fn json_quote(text: &str) -> (out: String)
    ensures
        out@ == json_quoted(text@),
{
    serde_json::to_string(text).unwrap_or_default()
}

/// `serde_json::from_str` to a `Value`: whether the text parses. The result
/// depends on the text alone.
#[verifier::external_body]
pub(crate) fn parses_as_json(doc: &str) -> (ok: bool)
    ensures
        ok == json_well_formed(doc@),
{
    serde_json::from_str::<serde_json::Value>(doc).is_ok()
}

/// `serde_json::from_str` to a `Value`, indexed by `key` and read with
/// `Value::as_str`: the string under the key, or nothing where the text does
/// not parse, is no object, lacks the key or holds no string there. The
/// result depends on the two texts alone.
#[verifier::external_body]
pub(crate) fn field_text(doc: &str, key: &str) -> (text: Option<String>)
    ensures
        opt_view(text) == json_field_text(doc@, key@),
{
    let value = serde_json::from_str::<serde_json::Value>(doc).ok()?;
    value[key].as_str().map(str::to_owned)
}

/// `serde_json::from_str` to a `Value`, indexed in turn by the key `list`,
/// the position `index`, the key `item` and the key `leaf`, and read with
/// `Value::as_str`: the string found there, or nothing where the text does
/// not parse or any step finds nothing. The result depends on the
/// arguments alone.
#[verifier::external_body]
pub(crate) fn nested_text(doc: &str, list: &str, index: usize, item: &str, leaf: &str) -> (text:
    Option<String>)
    ensures
        opt_view(text) == json_nested_text(doc@, list@, index, item@, leaf@),
{
    let value = serde_json::from_str::<serde_json::Value>(doc).ok()?;
    value[list][index][item][leaf].as_str().map(str::to_owned)
}

/// The JSON text of what a JSON document holds under a key at its top level
/// (`null` where it holds nothing there), as `serde_json` writes it.
pub uninterp spec fn json_field_json(doc: Seq<char>, key: Seq<char>) -> Seq<char>;

/// `serde_json::from_str` to a `Value`, indexed by `key` and written back
/// with `Value`'s `to_string`: the JSON text of what stands under the key, or
/// nothing where the text does not parse. The result depends on the two
/// texts alone.
#[verifier::external_body]
pub(crate) fn field_json(doc: &str, key: &str) -> (text: Option<String>)
    ensures
        text is Some <==> json_well_formed(doc@),
        text matches Some(t) ==> t@ == json_field_json(doc@, key@),
{
    let value = serde_json::from_str::<serde_json::Value>(doc).ok()?;
    Some(value[key].to_string())
}

} // verus!
