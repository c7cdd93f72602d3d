use crate::text::from_chars;
use crate::text::is_space;
use crate::text::is_space_char;
use crate::text::to_chars;
use vstd::prelude::*;

verus! {

/// Whether trimming takes the character away: white space where no character
/// is named, else the named character.
pub open spec fn is_trimmed_away(c: char, what: Option<char>) -> bool {
    match what {
        None => is_space(c),
        Some(x) => c == x,
    }
}

/// The text without the characters to trim at its head.
pub open spec fn trim_start_of(s: Seq<char>, what: Option<char>) -> Seq<char>
    decreases s.len(),
{
    if s.len() > 0 && is_trimmed_away(s[0], what) {
        trim_start_of(s.drop_first(), what)
    } else {
        s
    }
}

/// The text without the characters to trim at its end.
pub open spec fn trim_end_of(s: Seq<char>, what: Option<char>) -> Seq<char>
    decreases s.len(),
{
    if s.len() > 0 && is_trimmed_away(s.last(), what) {
        trim_end_of(s.drop_last(), what)
    } else {
        s
    }
}

/// The text without the characters to trim at either end.
pub open spec fn trim_of(s: Seq<char>, what: Option<char>) -> Seq<char> {
    trim_end_of(trim_start_of(s, what), what)
}

/// The text without white space at either end.
pub open spec fn trimmed(s: Seq<char>) -> Seq<char> {
    trim_of(s, None)
}

/// The text without the given character at either end, however often it
/// stands there.
pub open spec fn stripped_of(s: Seq<char>, c: char) -> Seq<char> {
    trim_of(s, Some(c))
}

/// Whether `s` begins with `p`.
pub open spec fn has_prefix(s: Seq<char>, p: Seq<char>) -> bool {
    p.len() <= s.len() && s.take(p.len() as int) == p
}

/// Whether `s` ends with `p`.
pub open spec fn has_suffix(s: Seq<char>, p: Seq<char>) -> bool {
    p.len() <= s.len() && s.skip(s.len() - p.len()) == p
}

/// Whether `p` stands in `s` at the position `i`.
pub open spec fn occurs_at(s: Seq<char>, p: Seq<char>, i: int) -> bool {
    0 <= i && i + p.len() <= s.len() && s.subrange(i, i + p.len()) == p
}

/// Whether `p` stands somewhere in `s`.
pub open spec fn has_text(s: Seq<char>, p: Seq<char>) -> bool {
    exists|i: int| occurs_at(s, p, i)
}

/// Whether the character stands somewhere in `s`.
pub open spec fn has_char(s: Seq<char>, c: char) -> bool {
    exists|i: int| 0 <= i < s.len() && s[i] == c
}

/// The position of the first `c` in `s`, or the length of `s` where there is
/// none.
pub open spec fn index_of(s: Seq<char>, c: char) -> int
    decreases s.len(),
{
    if s.len() == 0 || s[0] == c {
        0
    } else {
        1 + index_of(s.drop_first(), c)
    }
}

/// What follows the first `c` in `s`, if there is one.
pub open spec fn after_first(s: Seq<char>, c: char) -> Option<Seq<char>> {
    if index_of(s, c) < s.len() {
        Some(s.skip(index_of(s, c) + 1))
    } else {
        None
    }
}

/// What follows the last `c` in `s`, or all of `s` where there is none.
pub open spec fn after_last(s: Seq<char>, c: char) -> Seq<char>
    decreases s.len(),
{
    if s.len() == 0 || s.last() == c {
        Seq::<char>::empty()
    } else {
        after_last(s.drop_last(), c).push(s.last())
    }
}

/// The text without the suffix `p`, taken off as often as it stands at the
/// end.
pub open spec fn without_suffix(s: Seq<char>, p: Seq<char>) -> Seq<char>
    decreases s.len(),
{
    if p.len() > 0 && has_suffix(s, p) {
        without_suffix(s.take(s.len() - p.len()), p)
    } else {
        s
    }
}

/// The text without every occurrence of the character.
pub open spec fn without_char(s: Seq<char>, c: char) -> Seq<char>
    decreases s.len(),
{
    if s.len() == 0 {
        s
    } else if s.last() == c {
        without_char(s.drop_last(), c)
    } else {
        without_char(s.drop_last(), c).push(s.last())
    }
}

/// The first position of `c` lies within the text or at its end, no `c`
/// stands before it, and `c` stands there if it lies within.
pub proof fn lemma_index_of(s: Seq<char>, c: char)
    ensures
        0 <= index_of(s, c) <= s.len(),
        forall|k: int| 0 <= k < index_of(s, c) ==> s[k] != c,
        index_of(s, c) < s.len() ==> s[index_of(s, c)] == c,
    decreases s.len(),
{
    if s.len() > 0 && s[0] != c {
        let t = s.drop_first();
        lemma_index_of(t, c);
        assert forall|k: int| 0 <= k < index_of(s, c) implies s[k] != c by {
            if k > 0 {
                assert(s[k] == t[k - 1]);
            }
        }
    }
}

/// The position of the first `c` is the one position that holds `c` and has
/// no `c` before it.
pub proof fn lemma_index_of_is(s: Seq<char>, c: char, i: int)
    requires
        0 <= i <= s.len(),
        forall|k: int| 0 <= k < i ==> s[k] != c,
        i < s.len() ==> s[i] == c,
    ensures
        index_of(s, c) == i,
{
    lemma_index_of(s, c);
}

/// Whether `c` is trimmed away.
pub fn trims(c: char, what: Option<char>) -> (r: bool)
    ensures
        r == is_trimmed_away(c, what),
{
    match what {
        None => is_space_char(c),
        Some(x) => c == x,
    }
}

/// The text without the characters to trim at either end: white space where
/// no character is named, else the named character.
pub fn trim_by(s: &str, what: Option<char>) -> (r: String)
    ensures
        r@ == trim_of(s@, what),
{
    let chars = to_chars(s);
    let n = chars.len();
    let mut i: usize = 0;
    assert(s@.skip(0) =~= s@);
    while i < n && trims(chars[i], what)
        invariant
            i <= n,
            n == chars@.len(),
            chars@ == s@,
            trim_start_of(s@, what) == trim_start_of(s@.skip(i as int), what),
        decreases n - i,
    {
        assert(s@.skip(i as int).drop_first() =~= s@.skip(i + 1));
        i += 1;
    }
    let ghost head = s@.skip(i as int);
    let mut j: usize = n;
    assert(head.take(n - i) =~= head);
    while j > i && trims(chars[j - 1], what)
        invariant
            i <= j <= n,
            n == chars@.len(),
            chars@ == s@,
            head == s@.skip(i as int),
            trim_end_of(head, what) == trim_end_of(head.take(j - i), what),
        decreases j,
    {
        assert(head.take(j - i).drop_last() =~= head.take(j - 1 - i));
        j -= 1;
    }
    let r = from_chars(vstd::slice::slice_subrange(chars.as_slice(), i, j));
    r
}

/// The text without white space at either end.
pub fn trim(s: &str) -> (r: String)
    ensures
        r@ == trimmed(s@),
{
    trim_by(s, None)
}

/// The text without the given character at either end.
pub fn trim_matches(s: &str, c: char) -> (r: String)
    ensures
        r@ == stripped_of(s@, c),
{
    trim_by(s, Some(c))
}

/// Whether `p` stands in `s` at the position `i`.
pub fn matches_at(s: &[char], p: &[char], i: usize) -> (r: bool)
    ensures
        r == occurs_at(s@, p@, i as int),
{
    if p.len() > s.len() || i > s.len() - p.len() {
        return false;
    }
    let mut k: usize = 0;
    while k < p.len()
        invariant
            k <= p.len(),
            i + p.len() <= s.len(),
            forall|m: int| 0 <= m < k ==> s@[i + m] == p@[m],
        decreases p.len() - k,
    {
        if s[i + k] != p[k] {
            return false;
        }
        k += 1;
    }
    assert(s@.subrange(i as int, i + p.len()) =~= p@);
    true
}

/// Whether `s` begins with `p`.
pub fn starts_with(s: &str, p: &str) -> (r: bool)
    ensures
        r == has_prefix(s@, p@),
{
    let text = to_chars(s);
    let prefix = to_chars(p);
    let r = matches_at(text.as_slice(), prefix.as_slice(), 0);
    r
}

/// Whether `s` ends with `p`.
pub fn ends_with(s: &str, p: &str) -> (r: bool)
    ensures
        r == has_suffix(s@, p@),
{
    let text = to_chars(s);
    let suffix = to_chars(p);
    if suffix.len() > text.len() {
        return false;
    }
    let start = text.len() - suffix.len();
    let r = matches_at(text.as_slice(), suffix.as_slice(), start);
    r
}

/// Whether `p` stands somewhere in `s`.
pub fn contains(s: &str, p: &str) -> (r: bool)
    ensures
        r == has_text(s@, p@),
{
    let text = to_chars(s);
    let part = to_chars(p);
    if part.len() > text.len() {
        return false;
    }
    let last = text.len() - part.len();
    let mut i: usize = 0;
    while i < last
        invariant
            i <= last,
            last == text@.len() - part@.len(),
            text@ == s@,
            part@ == p@,
            forall|k: int| 0 <= k < i ==> !occurs_at(s@, p@, k),
        decreases last - i,
    {
        if matches_at(text.as_slice(), part.as_slice(), i) {
            return true;
        }
        i += 1;
    }
    matches_at(text.as_slice(), part.as_slice(), last)
}

/// Whether the character stands somewhere in `s`.
pub fn contains_char(s: &str, c: char) -> (r: bool)
    ensures
        r == has_char(s@, c),
{
    let text = to_chars(s);
    let mut i: usize = 0;
    while i < text.len()
        invariant
            i <= text.len(),
            text@ == s@,
            forall|k: int| 0 <= k < i ==> s@[k] != c,
        decreases text.len() - i,
    {
        if text[i] == c {
            return true;
        }
        i += 1;
    }
    false
}

/// What follows the first `c` in `s`, if there is one: the second of the two
/// parts that `splitn(2, c)` gives.
pub fn split_after(s: &str, c: char) -> (r: Option<String>)
    ensures
        match r {
            Some(rest) => after_first(s@, c) == Some(rest@),
            None => after_first(s@, c) is None,
        },
{
    let text = to_chars(s);
    let mut i: usize = 0;
    while i < text.len() && text[i] != c
        invariant
            i <= text.len(),
            text@ == s@,
            forall|k: int| 0 <= k < i ==> s@[k] != c,
        decreases text.len() - i,
    {
        i += 1;
    }
    proof {
        lemma_index_of_is(s@, c, i as int);
    }
    if i < text.len() {
        let rest = from_chars(vstd::slice::slice_subrange(text.as_slice(), i + 1, text.len()));
        Some(rest)
    } else {
        None
    }
}

/// What follows the last `c` in `s`, or all of `s` where there is none: the
/// last of the parts that `split(c)` gives.
pub fn split_last(s: &str, c: char) -> (r: String)
    ensures
        r@ == after_last(s@, c),
{
    let text = to_chars(s);
    let n = text.len();
    let mut j: usize = n;
    assert(s@.take(n as int) =~= s@);
    while j > 0 && text[j - 1] != c
        invariant
            j <= n,
            n == text@.len(),
            text@ == s@,
            after_last(s@, c) == after_last(s@.take(j as int), c) + s@.skip(j as int),
        decreases j,
    {
        let ghost head = s@.take(j as int);
        assert(head.drop_last() =~= s@.take(j - 1));
        j -= 1;
    }
    let r = from_chars(vstd::slice::slice_subrange(text.as_slice(), j, n));
    r
}

/// The text without the suffix `p`, taken off as often as it stands at the
/// end.
pub fn trim_end_matches(s: &str, p: &str) -> (r: String)
    ensures
        r@ == without_suffix(s@, p@),
{
    let text = to_chars(s);
    let suffix = to_chars(p);
    let m = suffix.len();
    let mut n: usize = text.len();
    assert(s@.take(n as int) =~= s@);
    if m == 0 {
        return s.to_owned();
    }
    while n >= m && matches_at(text.as_slice(), suffix.as_slice(), n - m)
        invariant
            n <= text.len(),
            m == suffix@.len(),
            m > 0,
            text@ == s@,
            suffix@ == p@,
            without_suffix(s@, p@) == without_suffix(s@.take(n as int), p@),
        decreases n,
    {
        let ghost head = s@.take(n as int);
        assert(head.skip(head.len() - p@.len()) =~= s@.subrange(n - m, n as int));
        assert(head.take(head.len() - p@.len()) =~= s@.take(n - m));
        n -= m;
    }
    let ghost head = s@.take(n as int);
    assert(!has_suffix(head, p@)) by {
        if n >= m {
            assert(head.skip(head.len() - p@.len()) =~= s@.subrange(n - m, n as int));
        }
    }
    let r = from_chars(vstd::slice::slice_subrange(text.as_slice(), 0, n));
    r
}

/// The text without every occurrence of the character.
pub fn remove_char(s: &str, c: char) -> (r: String)
    ensures
        r@ == without_char(s@, c),
{
    let mut r = String::new();
    for x in it: s.chars()
        invariant
            it.seq() == s@,
            r@ == without_char(s@.take(it.index() as int), c),
    {
        let ghost head = s@.take(it.index() + 1);
        assert(head.drop_last() =~= s@.take(it.index() as int));
        if x != c {
            r.push(x);
        }
    }
    assert(s@.take(s@.len() as int) =~= s@);
    r
}

/// Whether two string slices hold the same text.
pub fn same_text(a: &str, b: &str) -> (r: bool)
    ensures
        r == (a@ == b@),
{
    let left = to_chars(a);
    let right = to_chars(b);
    if left.len() != right.len() {
        return false;
    }
    let r = matches_at(left.as_slice(), right.as_slice(), 0);
    assert(a@.subrange(0, b@.len() as int) =~= a@);
    r
}

} // verus!
