use vstd::prelude::*;

use crate::text::{lower_of, lowercase, same_text, trim_chars, trimmed};

verus! {

/// The answer given to one approval request.
#[derive(Debug, Clone, Copy, PartialEq, Eq, Structural)]
pub enum Decision {
    Approved,
    ApprovedForSession,
    Denied,
    Abort,
}

/// The decision that a normalised (trimmed, lower-case) keyword names.
pub open spec fn keyword_decision(w: Seq<char>) -> Option<Decision> {
    if w == "approve"@ || w == "y"@ || w == "yes"@ {
        Some(Decision::Approved)
    } else if w == "approve_session"@ || w == "session"@ || w == "always"@ {
        Some(Decision::ApprovedForSession)
    } else if w == "deny"@ || w == "n"@ || w == "no"@ {
        Some(Decision::Denied)
    } else if w == "abort"@ || w == "stop"@ {
        Some(Decision::Abort)
    } else {
        None
    }
}

/// The decision that a line of input names: trimmed, then compared without case.
pub open spec fn line_decision(line: Seq<char>) -> Option<Decision> {
    keyword_decision(lower_of(trim_chars(line)))
}

/// Maps a keyword, already trimmed and in lower case, to its decision.
pub fn decision_from_keyword(word: &str) -> (r: Option<Decision>)
    ensures
        r == keyword_decision(word@),
{
    if same_text(word, "approve") || same_text(word, "y") || same_text(word, "yes") {
        Some(Decision::Approved)
    } else if same_text(word, "approve_session") || same_text(word, "session") || same_text(
        word,
        "always",
    ) {
        Some(Decision::ApprovedForSession)
    } else if same_text(word, "deny") || same_text(word, "n") || same_text(word, "no") {
        Some(Decision::Denied)
    } else if same_text(word, "abort") || same_text(word, "stop") {
        Some(Decision::Abort)
    } else {
        None
    }
}

/// Reads a decision from a line of free text; `None` when no keyword matches.
pub fn parse_decision(input: &str) -> (r: Option<Decision>)
    ensures
        r == line_decision(input@),
{
    let word = lowercase(trimmed(input));
    decision_from_keyword(word.as_str())
}

} // verus!
