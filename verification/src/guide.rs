//! The guide line: one transient status message and its style.
//!
//! Edit-mode dispatch clears the message on entry; the completion branches
//! set it. The exact texts are specified here so that callers know the
//! message character for character.

use crate::chars::{dec_str, format_usize};
use crate::style::Style;
use vstd::prelude::*;
use vstd::string::StringExecFns;

verus! {

/// The guide line's state: its text and its style.
pub struct Guide {
    pub text: String,
    pub style: Style,
}

/// The summary shown when a completion finds a head candidate and the
/// whole candidate set is loaded.
pub open spec fn loaded_all_message_spec(n: int) -> Seq<char> {
    "Loaded all ("@ + dec_str(n) + ") suggestions"@
}

/// The summary shown when a completion finds a head candidate but only a
/// prefix of the candidate set is loaded yet.
pub open spec fn loaded_partially_message_spec(n: int) -> Seq<char> {
    "Loaded partially ("@ + dec_str(n) + ") suggestions"@
}

/// The message shown when a completion finds no candidate for the prefix.
pub open spec fn no_suggestion_message_spec(prefix: Seq<char>) -> Seq<char> {
    "No suggestion found for '"@ + prefix + "'"@
}

/// The message shown when the lookup itself fails.
pub open spec fn lookup_failure_message_spec(kind: Seq<char>, message: Seq<char>) -> Seq<char> {
    "Failed to lookup suggestions: "@ + kind + ": "@ + message
}

/// Builds the fully-loaded summary for a count of `n`.
pub fn loaded_all_message(n: usize) -> (s: String)
    ensures
        s@ == loaded_all_message_spec(n as int),
{
    let mut s = String::from_str("Loaded all (");
    let count = format_usize(n);
    s.append(count.as_str());
    s.append(") suggestions");
    s
}

/// Builds the partially-loaded summary for a count of `n`.
pub fn loaded_partially_message(n: usize) -> (s: String)
    ensures
        s@ == loaded_partially_message_spec(n as int),
{
    let mut s = String::from_str("Loaded partially (");
    let count = format_usize(n);
    s.append(count.as_str());
    s.append(") suggestions");
    s
}

/// Builds the no-candidate message for `prefix`.
pub fn no_suggestion_message(prefix: &String) -> (s: String)
    ensures
        s@ == no_suggestion_message_spec(prefix@),
{
    let mut s = String::from_str("No suggestion found for '");
    s.append(prefix.as_str());
    s.append("'");
    s
}

/// Builds the lookup-failure message from a failure kind and its message.
pub fn lookup_failure_message(kind: &String, message: &String) -> (s: String)
    ensures
        s@ == lookup_failure_message_spec(kind@, message@),
{
    let mut s = String::from_str("Failed to lookup suggestions: ");
    s.append(kind.as_str());
    s.append(": ");
    s.append(message.as_str());
    s
}

} // verus!
