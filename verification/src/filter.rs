//! The JSON text of the filters that are sent to the upstream.
//!
//! The event feed takes a filter expression: a conjunction of conditions,
//! each an equality on one path. The account-activity feed takes a list of
//! accounts under a secret. String values are written as JSON literals by
//! `serde_json`; the framing round them is fixed here.

use vstd::prelude::*;
use crate::json::{json_quoted, quote};
use crate::text::{chars_of, each_text, join_with, joined, push_str_chars, string_of};

verus! {

/// The condition that compares the value under a path with a value, both
/// given as JSON string literals.
pub open spec fn equals_frame(quoted_path: Seq<char>, quoted_value: Seq<char>) -> Seq<char> {
    "{\"path\":"@ + quoted_path + ",\"operator\":{\"Equals\":"@ + quoted_value + "}}"@
}

/// Writes the condition that compares the value under a path with a value,
/// both given as JSON string literals.
pub fn frame_equals_condition(quoted_path: &str, quoted_value: &str) -> (r: String)
    ensures
        r@ == equals_frame(quoted_path@, quoted_value@),
{
    let mut v = chars_of("{\"path\":");
    push_str_chars(&mut v, quoted_path);
    push_str_chars(&mut v, ",\"operator\":{\"Equals\":");
    push_str_chars(&mut v, quoted_value);
    push_str_chars(&mut v, "}}");
    string_of(&v)
}

/// The condition "the value under `path` equals `value`".
pub open spec fn equals_condition(path: Seq<char>, value: Seq<char>) -> Seq<char> {
    equals_frame(json_quoted(path), json_quoted(value))
}

/// Writes the condition "the value under `path` equals `value`".
pub fn build_equals_condition(path: &str, value: &str) -> (r: String)
    ensures
        r@ == equals_condition(path@, value@),
{
    let quoted_path = quote(path);
    let quoted_value = quote(value);
    frame_equals_condition(quoted_path.as_str(), quoted_value.as_str())
}

/// The filter "all of `conditions` hold".
pub open spec fn all_of(conditions: Seq<Seq<char>>) -> Seq<char> {
    "{\"And\":["@ + joined(conditions, ","@) + "]}"@
}

/// Writes the filter "all of `conditions` hold".
pub fn build_all_of(conditions: &Vec<String>) -> (r: String)
    ensures
        r@ == all_of(each_text(conditions@)),
{
    let mut v = chars_of("{\"And\":[");
    push_str_chars(&mut v, join_with(conditions, ",").as_str());
    push_str_chars(&mut v, "]}");
    string_of(&v)
}

/// The entry of one account, given as a JSON string literal, in the
/// account-activity filter: successful actions on that account.
pub open spec fn account_entry_frame(quoted_account: Seq<char>) -> Seq<char> {
    "{\"accountId\":"@ + quoted_account + ",\"status\":\"SUCCESS\"}"@
}

/// Writes the entry of one account, given as a JSON string literal.
pub fn frame_account_entry(quoted_account: &str) -> (r: String)
    ensures
        r@ == account_entry_frame(quoted_account@),
{
    let mut v = chars_of("{\"accountId\":");
    push_str_chars(&mut v, quoted_account);
    push_str_chars(&mut v, ",\"status\":\"SUCCESS\"}");
    string_of(&v)
}

/// The first message on an account-activity connection, from the secret as
/// a JSON string literal and the accounts' entries: the secret, the entries
/// in the order given, and no replay of past actions.
pub open spec fn account_filter_frame(quoted_secret: Seq<char>, entries: Seq<Seq<char>>) -> Seq<
    char,
> {
    "{\"secret\":"@ + quoted_secret + ",\"filter\":["@ + joined(entries, ","@)
        + "],\"fetch_past_actions\":0}"@
}

/// Writes the first message on an account-activity connection from the
/// secret as a JSON string literal and the accounts' entries.
pub fn frame_account_filter(quoted_secret: &str, entries: &Vec<String>) -> (r: String)
    ensures
        r@ == account_filter_frame(quoted_secret@, each_text(entries@)),
{
    let mut v = chars_of("{\"secret\":");
    push_str_chars(&mut v, quoted_secret);
    push_str_chars(&mut v, ",\"filter\":[");
    push_str_chars(&mut v, join_with(entries, ",").as_str());
    push_str_chars(&mut v, "],\"fetch_past_actions\":0}");
    string_of(&v)
}

/// The entry of one account in the account-activity filter.
pub open spec fn account_entry(account: Seq<char>) -> Seq<char> {
    account_entry_frame(json_quoted(account))
}

/// The first message on an account-activity connection: the secret, one
/// entry per account in the order given, and no replay of past actions.
pub open spec fn account_filter_message(secret: Seq<char>, accounts: Seq<Seq<char>>) -> Seq<
    char,
> {
    account_filter_frame(
        json_quoted(secret),
        accounts.map_values(|a: Seq<char>| account_entry(a)),
    )
}

/// Writes the first message on an account-activity connection.
pub fn build_account_filter_message(secret: &str, accounts: &Vec<String>) -> (r: String)
    ensures
        r@ == account_filter_message(secret@, each_text(accounts@)),
{
    let mut entries: Vec<String> = Vec::new();
    let mut i: usize = 0;
    while i < accounts.len()
        invariant
            i <= accounts.len(),
            entries.len() == i,
            forall|k: int| 0 <= k < i ==> (#[trigger] entries@[k])@ == account_entry(accounts@[k]@),
        decreases accounts.len() - i,
    {
        let quoted = quote(accounts[i].as_str());
        entries.push(frame_account_entry(quoted.as_str()));
        i = i + 1;
    }
    assert(each_text(entries@) =~= each_text(accounts@).map_values(
        |a: Seq<char>| account_entry(a),
    ));
    let quoted_secret = quote(secret);
    frame_account_filter(quoted_secret.as_str(), &entries)
}

} // verus!
