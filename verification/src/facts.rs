use crate::scan::trim;
use crate::scan::trimmed;
use crate::text::texts;
use crate::wrap::break_long_text;
use crate::wrap::wrap_spec;
use vstd::prelude::*;
use vstd::string::StringExecFns;

verus! {

/// The length in bytes at which long values are wrapped.
pub const WRAP_WIDTH: usize = 35;

/// The label and the value of each pair as texts.
pub open spec fn pair_texts(info: Seq<(String, String)>) -> Seq<(Seq<char>, Seq<char>)> {
    Seq::new(info.len(), |i: int| (info[i].0@, info[i].1@))
}

/// One logical entry spread over several lines: the first line carries the
/// label, every further line an empty label.
pub open spec fn labelled(label: Seq<char>, lines: Seq<Seq<char>>) -> Seq<(Seq<char>, Seq<char>)> {
    Seq::new(
        lines.len(),
        |i: int|
            (if i == 0 {
                label
            } else {
                Seq::<char>::empty()
            }, lines[i]),
    )
}

/// The text of an optional string.
pub open spec fn opt_text(s: Option<String>) -> Option<Seq<char>> {
    match s {
        Some(text) => Some(text@),
        None => None,
    }
}

/// The text of an optional string slice.
pub open spec fn opt_str(s: Option<&str>) -> Option<Seq<char>> {
    match s {
        Some(text) => Some(text@),
        None => None,
    }
}

/// The decimal digit with the given value; `9` for any value above nine.
pub open spec fn digit(d: nat) -> char {
    if d == 0 {
        '0'
    } else if d == 1 {
        '1'
    } else if d == 2 {
        '2'
    } else if d == 3 {
        '3'
    } else if d == 4 {
        '4'
    } else if d == 5 {
        '5'
    } else if d == 6 {
        '6'
    } else if d == 7 {
        '7'
    } else if d == 8 {
        '8'
    } else {
        '9'
    }
}

/// A number written in decimal, without leading zeros.
pub open spec fn decimal(n: nat) -> Seq<char>
    decreases n,
{
    if n < 10 {
        seq![digit(n)]
    } else {
        decimal(n / 10).push(digit(n % 10))
    }
}

/// What a command printed, without the white space around it, or the
/// fallback where the command could not be run.
pub open spec fn output_or(output: Option<Seq<char>>, fallback: Seq<char>) -> Seq<char> {
    match output {
        Some(text) => trimmed(text),
        None => fallback,
    }
}

/// Two texts with one space between them.
pub open spec fn spaced(a: Seq<char>, b: Seq<char>) -> Seq<char> {
    a + seq![' '] + b
}

/// A pair of owned strings from a label and a value.
pub fn pair(label: &str, value: String) -> (p: (String, String))
    ensures
        p.0@ == label@,
        p.1@ == value@,
{
    (label.to_owned(), value)
}

/// The decimal digit with the given value; `9` for any value above nine.
pub fn digit_char(d: u64) -> (c: char)
    ensures
        c == digit(d as nat),
{
    if d == 0 {
        '0'
    } else if d == 1 {
        '1'
    } else if d == 2 {
        '2'
    } else if d == 3 {
        '3'
    } else if d == 4 {
        '4'
    } else if d == 5 {
        '5'
    } else if d == 6 {
        '6'
    } else if d == 7 {
        '7'
    } else if d == 8 {
        '8'
    } else {
        '9'
    }
}

/// Writes a number in decimal.
pub fn decimal_string(n: u64) -> (s: String)
    ensures
        s@ == decimal(n as nat),
    decreases n,
{
    if n < 10 {
        let mut s = String::new();
        s.push(digit_char(n));
        s
    } else {
        let mut s = decimal_string(n / 10);
        s.push(digit_char(n % 10));
        s
    }
}

/// A value or, where there is none, the given fallback.
pub fn value_or(value: Option<String>, fallback: &str) -> (r: String)
    ensures
        r@ == (match value {
            Some(text) => text@,
            None => fallback@,
        }),
{
    match value {
        Some(text) => text,
        None => fallback.to_owned(),
    }
}

/// What a command printed, without the white space around it, or the
/// fallback where the command could not be run.
pub fn trimmed_output(output: Option<&str>, fallback: &str) -> (r: String)
    ensures
        r@ == output_or(opt_str(output), fallback@),
{
    match output {
        Some(text) => trim(text),
        None => fallback.to_owned(),
    }
}

/// Two texts with one space between them.
pub fn join_spaced(a: &str, b: &str) -> (r: String)
    ensures
        r@ == spaced(a@, b@),
{
    let mut r = a.to_owned();
    r.push(' ');
    r.append(b);
    r
}

/// Adds one logical entry to the pairs: the text is wrapped at 35 bytes, the
/// first line carries the label and every further line an empty label.
pub fn push_wrapped(info: &mut Vec<(String, String)>, label: &str, text: &str)
    ensures
        pair_texts(final(info)@) == pair_texts(old(info)@) + labelled(
            label@,
            wrap_spec(text@, WRAP_WIDTH as nat),
        ),
{
    let lines = break_long_text(text, WRAP_WIDTH);
    let ghost start = pair_texts(info@);
    let ghost wanted = labelled(label@, wrap_spec(text@, WRAP_WIDTH as nat));
    let mut i: usize = 0;
    while i < lines.len()
        invariant
            i <= lines.len(),
            texts(lines@) == wrap_spec(text@, WRAP_WIDTH as nat),
            wanted == labelled(label@, wrap_spec(text@, WRAP_WIDTH as nat)),
            pair_texts(info@) == start + wanted.take(i as int),
        decreases lines.len() - i,
    {
        let ghost before = pair_texts(info@);
        let key = if i == 0 {
            label.to_owned()
        } else {
            String::new()
        };
        let line = lines[i].clone();
        info.push((key, line));
        assert(pair_texts(info@) =~= before.push(wanted[i as int]));
        i += 1;
    }
}

} // verus!
