//! Regular-expression matching, done by the `regex` crate.

use vstd::prelude::*;

verus! {

/// What `regex::Regex::captures` finds when the expression `pattern` is
/// searched for in `text`: `None` when `pattern` is not an expression the
/// engine accepts or when it matches nowhere; otherwise one entry per capture
/// group, in the order of their opening parentheses and with the whole match
/// at index 0, each holding the text the group matched or `None` if the group
/// took no part in the match.
pub uninterp spec fn regex_captures(pattern: Seq<char>, text: Seq<char>) -> Option<
    Seq<Option<Seq<char>>>,
>;

/// The texts held by a list of capture groups.
pub open spec fn groups_view(groups: Seq<Option<String>>) -> Seq<Option<Seq<char>>> {
    groups.map_values(
        |g: Option<String>|
            match g {
                Some(s) => Some(s@),
                None => None,
            },
    )
}

/// Compiles `pattern` with `regex::Regex::new` and searches `text` with
/// `regex::Regex::captures`, copying out the text of every capture group.
///
/// Nothing is proved about this function. It is trusted to return exactly
/// what the engine reports for this pattern and text, named by
/// [`regex_captures`]; a pattern that the engine rejects gives `None`.
#[verifier::external_body]
pub(crate) fn captures(pattern: &str, text: &str) -> (found: Option<Vec<Option<String>>>)
    ensures
        found is Some == regex_captures(pattern@, text@) is Some,
        found matches Some(groups) ==> groups_view(groups@) == regex_captures(
            pattern@,
            text@,
        )->Some_0,
{
    match regex::Regex::new(pattern) {
        Ok(re) => re.captures(text).map(
            |c| c.iter().map(|m| m.map(|m| m.as_str().to_owned())).collect(),
        ),
        Err(_) => None,
    }
}

} // verus!
