//! JSON strings, as the serde_json crate writes them.
//!
//! A string is written between double quotes. The double quote and the
//! backslash are written behind a backslash; backspace, tab, line feed, form
//! feed and carriage return as a backslash and their letter; every other
//! character below the space as `\u00` and its two digits in base sixteen; all
//! others as they are.

use vstd::prelude::*;

verus! {

/// The digit that stands for `value` in base sixteen, in lower case.
pub open spec fn hex_digit(value: int) -> char {
    seq!['0', '1', '2', '3', '4', '5', '6', '7', '8', '9', 'a', 'b', 'c', 'd', 'e', 'f'][value]
}

/// Whether `c` is written as it is.
pub open spec fn is_plain(c: char) -> bool {
    c != '"' && c != '\\' && c as u32 >= 0x20
}

/// What is written for the character `c` inside a JSON string.
pub open spec fn json_char(c: char) -> Seq<char> {
    if c == '"' {
        seq!['\\', '"']
    } else if c == '\\' {
        seq!['\\', '\\']
    } else if c == '\u{8}' {
        seq!['\\', 'b']
    } else if c == '\t' {
        seq!['\\', 't']
    } else if c == '\n' {
        seq!['\\', 'n']
    } else if c == '\u{c}' {
        seq!['\\', 'f']
    } else if c == '\r' {
        seq!['\\', 'r']
    } else if (c as u32) < 0x20 {
        seq!['\\', 'u', '0', '0', hex_digit(c as int / 16), hex_digit(c as int % 16)]
    } else {
        seq![c]
    }
}

/// What is written for the characters of `text` inside a JSON string.
pub open spec fn json_contents(text: Seq<char>) -> Seq<char>
    decreases text.len(),
{
    if text.len() == 0 {
        Seq::empty()
    } else {
        json_contents(text.drop_last()) + json_char(text.last())
    }
}

/// The JSON text of the string `text`: its characters between double quotes,
/// with those escaped that JSON asks to escape.
pub open spec fn json_string(text: Seq<char>) -> Seq<char> {
    seq!['"'] + json_contents(text) + seq!['"']
}

/// Trusted: makes a `serde_json::Value::String` of the text and writes it
/// with the `Display` of `Value`, which prints compact JSON. The contract
/// states what serde_json's writer does with a string: it puts it between
/// double quotes and escapes, by its table of escapes, the double quote, the
/// backslash and the characters below the space.
#[verifier::external_body]
fn write_string(text: &str) -> (r: String)
    ensures
        r@ == json_string(text@),
{
    serde_json::Value::String(text.to_owned()).to_string()
}

/// Returns the JSON text of the string `text`.
pub fn to_json_string(text: &str) -> (r: String)
    ensures
        r@ == json_string(text@),
{
    write_string(text)
}

/// A text of plain characters is written as it is, between double quotes.
pub proof fn lemma_plain_text_is_quoted(text: Seq<char>)
    requires
        forall|i: int| 0 <= i < text.len() ==> is_plain(#[trigger] text[i]),
    ensures
        json_contents(text) == text,
        json_string(text) == seq!['"'] + text + seq!['"'],
    decreases text.len(),
{
    if text.len() > 0 {
        let rest = text.drop_last();
        assert forall|i: int| 0 <= i < rest.len() implies is_plain(#[trigger] rest[i]) by {
            assert(rest[i] == text[i]);
        }
        lemma_plain_text_is_quoted(rest);
        assert(is_plain(text[text.len() - 1]));
        assert(json_char(text.last()) == seq![text.last()]);
        assert(rest + seq![text.last()] =~= text);
    } else {
        assert(json_contents(text) =~= text);
    }
}

} // verus!
