//! Reading a yes/no answer typed at the terminal.
use vstd::prelude::*;
use crate::text::same_text;

verus! {

/// A yes/no answer, also used as the default one.
#[derive(Clone, Copy, Debug, PartialEq, Eq)]
pub enum AskDefaultAnswers {
    Yes,
    No,
}

/// The lower-case form of a text, as std's `str::to_lowercase` gives it.
pub uninterp spec fn lower_of(s: Seq<char>) -> Seq<char>;

/// A text without its leading and trailing white space, as std's `str::trim`
/// gives it.
pub uninterp spec fn trimmed_of(s: Seq<char>) -> Seq<char>;

/// Relies on str::to_lowercase: the lower-case form depends on the text alone.
#[verifier::external_body]
fn lowercase(s: &str) -> (r: String)
    ensures
        r@ == lower_of(s@),
{
    s.to_lowercase()
}

/// Relies on str::trim: the trimmed text depends on the text alone.
#[verifier::external_body]
fn trim(s: &str) -> (r: String)
    ensures
        r@ == trimmed_of(s@),
{
    s.trim().to_string()
}

/// The answer a normalized reply stands for: `y` and `n` answer, anything
/// else (the empty reply included) keeps the default.
pub open spec fn answer_for(reply: Seq<char>, fallback: AskDefaultAnswers) -> AskDefaultAnswers {
    if reply == "y"@ {
        AskDefaultAnswers::Yes
    } else if reply == "n"@ {
        AskDefaultAnswers::No
    } else {
        fallback
    }
}

/// The answer a reply already in lower case and trimmed stands for.
pub fn answer_of(reply: &str, fallback: AskDefaultAnswers) -> (r: AskDefaultAnswers)
    ensures
        r == answer_for(reply@, fallback),
{
    if same_text(reply, "y") {
        AskDefaultAnswers::Yes
    } else if same_text(reply, "n") {
        AskDefaultAnswers::No
    } else {
        fallback
    }
}

/// The answer a typed line stands for, read without regard to case or to
/// surrounding white space.
pub fn read_answer(line: &str, fallback: AskDefaultAnswers) -> (r: AskDefaultAnswers)
    ensures
        r == answer_for(trimmed_of(lower_of(line@)), fallback),
{
    let lower = lowercase(line);
    let reply = trim(lower.as_str());
    answer_of(reply.as_str(), fallback)
}

} // verus!
