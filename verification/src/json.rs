//! The JSON text that crosses the library's edges.
//!
//! Reading and writing JSON is left to `serde_json`. This module holds the
//! calls into it, each with a name for what it returns, so that the decoding
//! built on them can say exactly which events a message stands for.

use vstd::prelude::*;
use crate::text::each_text;

verus! {

/// The error of `serde_json`, carried through unread.
#[verifier::external_type_specification]
#[verifier::external_body]
pub struct ExJsonError(serde_json::Error);

/// The elements of the JSON array that `text` holds, each as compact JSON
/// text; `None` where `text` is not one JSON array.
pub uninterp spec fn json_array(text: Seq<char>) -> Option<Seq<Seq<char>>>;

/// The entries of the JSON object that `text` holds, in the order in which
/// the parsed object is walked (as `serde_json` is built here that is by
/// key, not the order on the wire): each key with its value as compact JSON
/// text. `None` where `text` is not one JSON object.
pub uninterp spec fn json_object(text: Seq<char>) -> Option<Seq<(Seq<char>, Seq<char>)>>;

/// The characters of the JSON string that `text` holds; `None` where `text`
/// is not one JSON string.
pub uninterp spec fn json_string(text: Seq<char>) -> Option<Seq<char>>;

/// The number that `serde_json` reads from `text` as a `u64`; `None` where
/// it reads none. It takes the digits of a number from 0 to 2^64 - 1 and
/// refuses, among others, a number written with a fraction or an exponent.
pub uninterp spec fn json_u64(text: Seq<char>) -> Option<u64>;

/// The character that writes the hexadecimal digit `d` (0 to 15), in lower
/// case.
pub open spec fn hex_digit(d: int) -> char {
    if d == 0 {
        '0'
    } else if d == 1 {
        '1'
    } else if d == 2 {
        '2'
    } else if d == 3 {
        '3'
    } else if d == 4 {
        '4'
    } else if d == 5 {
        '5'
    } else if d == 6 {
        '6'
    } else if d == 7 {
        '7'
    } else if d == 8 {
        '8'
    } else if d == 9 {
        '9'
    } else if d == 10 {
        'a'
    } else if d == 11 {
        'b'
    } else if d == 12 {
        'c'
    } else if d == 13 {
        'd'
    } else if d == 14 {
        'e'
    } else {
        'f'
    }
}

/// How one character stands inside a JSON string literal: the quote and the
/// backslash behind a backslash; backspace, tab, line feed, form feed and
/// carriage return by their short escapes; every other character below
/// U+0020 as `\u00` and two hexadecimal digits; every other character as
/// itself.
pub open spec fn escaped(c: char) -> Seq<char> {
    if c == '"' {
        seq!['\\', '"']
    } else if c == '\\' {
        seq!['\\', '\\']
    } else if c == '\u{8}' {
        seq!['\\', 'b']
    } else if c == '\t' {
        seq!['\\', 't']
    } else if c == '\n' {
        seq!['\\', 'n']
    } else if c == '\u{c}' {
        seq!['\\', 'f']
    } else if c == '\r' {
        seq!['\\', 'r']
    } else if (c as u32) < 0x20 {
        seq!['\\', 'u', '0', '0', hex_digit((c as u32) as int / 16), hex_digit((c as u32) as int % 16)]
    } else {
        seq![c]
    }
}

/// The characters of `s`, each as it stands inside a JSON string literal.
pub open spec fn escaped_text(s: Seq<char>) -> Seq<char>
    decreases s.len(),
{
    if s.len() == 0 {
        Seq::empty()
    } else {
        escaped_text(s.drop_last()) + escaped(s.last())
    }
}

/// The JSON string literal for `s`: its escaped characters between quotes.
pub open spec fn json_quoted(s: Seq<char>) -> Seq<char> {
    seq!['"'] + escaped_text(s) + seq!['"']
}

/// The characters of each pair of strings of a list.
pub open spec fn pairs_of(items: Seq<(String, String)>) -> Seq<(Seq<char>, Seq<char>)> {
    items.map_values(|p: (String, String)| (p.0@, p.1@))
}

/// Parses `text` as a JSON array and hands out its elements as text.
///
/// Trusted: calls `serde_json::from_str` for a list of `serde_json::Value`
/// and writes each element back with `to_string`. The contract claims only
/// that the outcome is a function of `text`: the same text fails or yields
/// the same element texts every time.
#[verifier::external_body]
pub(crate) fn parse_array(text: &str) -> (r: Result<Vec<String>, serde_json::Error>)
    ensures
        r is Ok <==> json_array(text@) is Some,
        r matches Ok(items) ==> each_text(items@) == json_array(text@).unwrap(),
{
    let values: Vec<serde_json::Value> = serde_json::from_str(text)?;
    Ok(values.iter().map(|v| v.to_string()).collect())
}

/// Parses `text` as a JSON object and hands out its entries as text.
///
/// Trusted: calls `serde_json::from_str` for a `serde_json::Map`, walks it
/// with `iter` and writes each value back with `to_string`. The contract
/// claims only that the outcome is a function of `text`.
#[verifier::external_body]
pub(crate) fn parse_object(text: &str) -> (r: Result<Vec<(String, String)>, serde_json::Error>)
    ensures
        r is Ok <==> json_object(text@) is Some,
        r matches Ok(entries) ==> pairs_of(entries@) == json_object(text@).unwrap(),
{
    let map: serde_json::Map<String, serde_json::Value> = serde_json::from_str(text)?;
    Ok(map.iter().map(|(k, v)| (k.clone(), v.to_string())).collect())
}

/// Parses `text` as a JSON string.
///
/// Trusted: calls `serde_json::from_str` for a `String`. The contract claims
/// only that the outcome is a function of `text`.
#[verifier::external_body]
pub(crate) fn parse_string(text: &str) -> (r: Result<String, serde_json::Error>)
    ensures
        r is Ok <==> json_string(text@) is Some,
        r matches Ok(s) ==> s@ == json_string(text@).unwrap(),
{
    serde_json::from_str::<String>(text)
}

/// Parses `text` as an unsigned JSON number.
///
/// Trusted: calls `serde_json::from_str` for a `u64`. The contract claims
/// only that the outcome is a function of `text`.
#[verifier::external_body]
pub(crate) fn parse_u64(text: &str) -> (r: Result<u64, serde_json::Error>)
    ensures
        r is Ok <==> json_u64(text@) is Some,
        r matches Ok(n) ==> n == json_u64(text@).unwrap(),
{
    serde_json::from_str::<u64>(text)
}

/// Writes `s` as a JSON string literal.
///
/// Trusted: wraps `s` in `serde_json::Value::String` and writes it with
/// `to_string`. The contract claims that the compact writer puts the text
/// between quotes and escapes exactly the quote, the backslash and the
/// characters below U+0020, as [`escaped`] says.
#[verifier::external_body]
pub(crate) fn quote(s: &str) -> (r: String)
    ensures
        r@ == json_quoted(s@),
{
    serde_json::Value::String(s.to_owned()).to_string()
}

} // verus!
