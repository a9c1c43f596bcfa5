//! What the logger hands from the loops to the thread that writes the
//! log, and how a line of the log reads.

use crate::text::{chars_of, is_prefix, push_str, starts_with, string_of};
use vstd::prelude::*;

verus! {

/// What the writing thread is sent: a line to write, or the word to stop.
#[derive(Debug, Clone, PartialEq, Eq)]
pub enum LogMessage {
    Message(String),
    Quit,
}

/// How a line of the log reads: when, how grave, where from, and what.
pub open spec fn log_line_text(
    timestamp: Seq<char>,
    level: Seq<char>,
    origin: Seq<char>,
    message: Seq<char>,
) -> Seq<char> {
    timestamp + " ["@ + level + "] "@ + origin + ": "@ + message
}

/// Writes a line of the log.
pub fn log_line(timestamp: &str, level: &str, origin: &str, message: &str) -> (r: String)
    ensures
        r@ == log_line_text(timestamp@, level@, origin@, message@),
{
    let mut out: Vec<char> = Vec::new();
    push_str(&mut out, timestamp);
    push_str(&mut out, " [");
    push_str(&mut out, level);
    push_str(&mut out, "] ");
    push_str(&mut out, origin);
    push_str(&mut out, ": ");
    push_str(&mut out, message);
    string_of(&out)
}

/// Whether what comes from `target` is logged: what comes from the
/// program `package` itself is, and nothing else.
pub fn is_enabled(target: &str, package: &str) -> (r: bool)
    ensures
        r == is_prefix(package@, target@),
{
    let t = chars_of(target);
    let p = chars_of(package);
    starts_with(&t, &p)
}

} // verus!
