use vstd::prelude::*;

verus! {

/// What the first capture group of a regular expression holds at the
/// expression's first match in a text: `None` where the expression does not
/// compile, does not match, or matches without that group.
pub uninterp spec fn regex_group(pattern: Seq<char>, text: Seq<char>) -> Option<Seq<char>>;

/// The first capture group of the pattern's first match in the text.
///
/// Compiles the pattern with `regex::Regex::new`, searches the text with
/// `Regex::captures` and reads group 1 with `Captures::get`. The result
/// depends on pattern and text alone and is only named.
#[verifier::external_body]
pub(crate) fn first_group(pattern: &str, text: &str) -> (found: Option<String>)
    ensures
        (match found {
            Some(group) => regex_group(pattern@, text@) == Some(group@),
            None => regex_group(pattern@, text@) is None,
        }),
{
    let expression = regex::Regex::new(pattern).ok()?;
    let captures = expression.captures(text)?;
    match captures.get(1) {
        Some(group) => Some(group.as_str().to_string()),
        None => None,
    }
}

} // verus!
