//! Shell-style tokenization of one input line, through an outside service.

use vstd::prelude::*;

verus! {

/// What shell-style word splitting yields for a line: its tokens, or
/// nothing when the line's quoting is unterminated. The outcome depends on
/// the line's characters alone.
pub uninterp spec fn split_tokens(line: Seq<char>) -> Option<Seq<Seq<char>>>;

/// Relies on `shell_words::split`: splits one line into word tokens under
/// shell quoting rules, a pure function of the characters, and fails
/// exactly when a quote is unterminated.
#[verifier::external_body]
pub(crate) fn split_line(line: &str) -> (r: Option<Vec<String>>)
    ensures
        match r {
            Some(toks) => split_tokens(line@) == Some(toks.deep_view()),
            None => split_tokens(line@) is None,
        },
{
    match shell_words::split(line) {
        Ok(toks) => Some(toks),
        Err(_) => None,
    }
}

} // verus!
