use crate::capture::first_group;
use crate::capture::regex_group;
use crate::facts::opt_text;
use crate::text::lines;
use crate::text::split_lines;
use crate::text::split_words;
use crate::text::words;
use vstd::prelude::*;

verus! {

/// The expression that finds a version number of two or three parts.
pub const VERSION_PATTERN: &'static str = r"(\d+\.\d+(\.\d+)?)";

/// The second word of the first line of a text, if it has one.
pub open spec fn second_word(text: Seq<char>) -> Option<Seq<char>> {
    if lines(text).len() > 0 && words(lines(text)[0]).len() > 1 {
        Some(words(lines(text)[0])[1])
    } else {
        None
    }
}

/// The version in what a program printed: the number that the expression
/// found, else the second word of the first line.
pub open spec fn version_in(text: Seq<char>, found: Option<Seq<char>>) -> Option<Seq<char>> {
    match found {
        Some(number) => Some(number),
        None => second_word(text),
    }
}

/// The version in what a program printed, given what the version expression
/// found in it: that number, else the second word of the first line.
pub fn version_from(output: &str, found: Option<String>) -> (version: Option<String>)
    ensures
        opt_text(version) == version_in(output@, opt_text(found)),
{
    match found {
        Some(number) => Some(number),
        None => {
            let text_lines = split_lines(output);
            if text_lines.len() == 0 {
                return None;
            }
            let parts = split_words(text_lines[0].as_str());
            if parts.len() > 1 {
                Some(parts[1].clone())
            } else {
                None
            }
        },
    }
}

/// The version of a program from what it printed when it was asked; `None`
/// where it could not be asked or did not succeed.
pub fn get_version(output: Option<&str>) -> (version: Option<String>)
    ensures
        opt_text(version) == (match output {
            Some(text) => version_in(text@, regex_group(VERSION_PATTERN@, text@)),
            None => None,
        }),
{
    match output {
        Some(text) => {
            let found = first_group(VERSION_PATTERN, text);
            version_from(text, found)
        },
        None => None,
    }
}

} // verus!
