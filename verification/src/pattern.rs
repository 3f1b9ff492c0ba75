//! Regular expressions, as the `regex` crate reads them.

use vstd::prelude::*;

verus! {

/// What `regex::Regex::new` says against `pattern`: `None` where it
/// compiles, else the text of the error.
pub uninterp spec fn regex_error(pattern: Seq<char>) -> Option<Seq<char>>;

/// Whether the regular expression `pattern` matches somewhere in `line`, as
/// `regex::Regex::is_match` finds it.
pub uninterp spec fn regex_matches(pattern: Seq<char>, line: Seq<char>) -> bool;

/// Compiles `pattern` with `regex::Regex::new` and asks `is_match` of every
/// line. The contract claims that both depend on the pattern and the line
/// alone: it names the error text `regex_error` and each answer
/// `regex_matches`, and says that there is one answer per line, in order.
#[verifier::external_body]
pub(crate) fn match_lines(pattern: &str, lines: &Vec<String>) -> (r: Result<Vec<bool>, String>)
    ensures
        match r {
            Ok(flags) => regex_error(pattern@) is None && flags@.len() == lines@.len() && forall|
                i: int,
            |
                0 <= i < lines@.len() ==> flags@[i] == regex_matches(pattern@, (#[trigger] lines@[i])@),
            Err(e) => regex_error(pattern@) == Some(e@),
        },
{
    let compiled = regex::Regex::new(pattern).map_err(|e| e.to_string())?;
    Ok(lines.iter().map(|line| compiled.is_match(line)).collect())
}

} // verus!
