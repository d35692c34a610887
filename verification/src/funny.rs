//! The bot agrees with one user whenever he asks it to.

use vstd::prelude::*;
use vstd::string::StringExecFns;

verus! {

/// The user whose questions the bot answers.
pub const TARGET_USER_ID: u64 = 339829749218017281;

/// `text` in lower case, as `str::to_lowercase` writes it.
pub uninterp spec fn lowercased(text: Seq<char>) -> Seq<char>;

/// Whether `needle` stands somewhere in `text`.
pub open spec fn occurs_in(needle: Seq<char>, text: Seq<char>) -> bool {
    exists|at: int|
        0 <= at <= text.len() - needle.len() && #[trigger] text.subrange(at, at + needle.len())
            == needle
}

/// `str::to_lowercase`.
///
/// Trusted: the text returned is given the name [`lowercased`]; the
/// conversion looks at nothing but the text.
#[verifier::external_body]
fn lowercase(text: &str) -> (lower: String)
    ensures
        lower@ == lowercased(text@),
{
    text.to_lowercase()
}

/// `str::contains` with a string as the pattern.
///
/// Trusted: the standard library documents that the call tells whether the
/// pattern matches a part of the text; for a string as pattern that is
/// whether its characters stand in the text one after the other.
#[verifier::external_body]
fn contains(text: &str, needle: &str) -> (found: bool)
    ensures
        found == occurs_in(needle@, text@),
{
    text.contains(needle)
}

/// Whether a message by `author_id` that reads `content` asks for the bot's
/// agreement: it is by the target user and holds the question, in whatever
/// case.
pub open spec fn asks_for_agreement(author_id: u64, content: Seq<char>) -> bool {
    author_id == TARGET_USER_ID && occurs_in("right agelbub?"@, lowercased(content))
}

/// What the bot says to a message by `author_id` that reads `content`: "yes"
/// where the message asks for its agreement, and nothing otherwise.
pub fn slumduke_reply(author_id: u64, content: &str) -> (reply: Option<String>)
    ensures
        match reply {
            Some(text) => asks_for_agreement(author_id, content@) && text@ == "yes"@,
            None => !asks_for_agreement(author_id, content@),
        },
{
    if author_id != TARGET_USER_ID {
        return None;
    }
    let lower = lowercase(content);
    if contains(lower.as_str(), "right agelbub?") {
        Some(String::from_str("yes"))
    } else {
        None
    }
}

} // verus!
