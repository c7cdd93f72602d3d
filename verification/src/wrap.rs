use crate::metrics::is_measurable;
use crate::metrics::larger;
use crate::metrics::lemma_measurable_concat;
use crate::metrics::lemma_plain_ascii_width;
use crate::metrics::lemma_width_within_bytes;
use crate::metrics::lemma_widest;
use crate::metrics::visible_width_spec;
use crate::metrics::widest;
use crate::text::all_words;
use crate::text::is_space;
use crate::text::is_word;
use crate::text::lemma_utf8_len_concat;
use crate::text::lemma_utf8_len_space;
use crate::text::pending;
use crate::text::split_words;
use crate::text::texts;
use crate::text::utf8_len;
use crate::text::words;
use crate::text::words_from;
use vstd::prelude::*;
use vstd::string::StringExecFns;

verus! {

/// Whether `word` no longer fits on the line `cur`: the line holds something
/// already, and line, one space and word together are longer than `max` bytes.
pub open spec fn overflows(cur: Seq<char>, word: Seq<char>, max: nat) -> bool {
    cur.len() > 0 && utf8_len(cur) + utf8_len(word) + 1 > max
}

/// The line `cur` with `word` added: after one space, or alone on an empty line.
pub open spec fn extended(cur: Seq<char>, word: Seq<char>) -> Seq<char> {
    if cur.len() > 0 {
        cur + seq![' '] + word
    } else {
        word
    }
}

/// The lines that greedy wrapping makes of the words `ws` when `cur` is the
/// line in progress.
pub open spec fn wrap_from(ws: Seq<Seq<char>>, cur: Seq<char>, max: nat) -> Seq<Seq<char>>
    decreases ws.len(),
{
    if ws.len() == 0 {
        pending(cur)
    } else if overflows(cur, ws[0], max) {
        seq![cur] + wrap_from(ws.drop_first(), ws[0], max)
    } else {
        wrap_from(ws.drop_first(), extended(cur, ws[0]), max)
    }
}

/// The lines of a text wrapped greedily at `max` bytes.
pub open spec fn wrap_spec(text: Seq<char>, max: nat) -> Seq<Seq<char>> {
    wrap_from(words(text), Seq::<char>::empty(), max)
}

/// The words of all the lines, in order.
pub open spec fn line_words(lines: Seq<Seq<char>>) -> Seq<Seq<char>>
    decreases lines.len(),
{
    if lines.len() == 0 {
        Seq::<Seq<char>>::empty()
    } else {
        words(lines[0]) + line_words(lines.drop_first())
    }
}

/// The byte length of the longest text of the list, 0 for an empty list.
pub open spec fn longest(ws: Seq<Seq<char>>) -> nat
    decreases ws.len(),
{
    if ws.len() == 0 {
        0
    } else {
        larger(longest(ws.drop_last()), utf8_len(ws.last()))
    }
}

/// No text of a list is longer than the longest.
pub proof fn lemma_longest(ws: Seq<Seq<char>>, i: int)
    requires
        0 <= i < ws.len(),
    ensures
        utf8_len(ws[i]) <= longest(ws),
    decreases ws.len(),
{
    if i < ws.len() - 1 {
        lemma_longest(ws.drop_last(), i);
    }
}

/// A run of characters without white space adds to the word in progress and
/// ends no word.
pub proof fn lemma_words_of_run(w: Seq<char>, cur: Seq<char>)
    requires
        forall|i: int| 0 <= i < w.len() ==> !is_space(#[trigger] w[i]),
    ensures
        words_from(w, cur) == pending(cur + w),
    decreases w.len(),
{
    if w.len() > 0 {
        let t = w.drop_first();
        lemma_words_of_run(t, cur.push(w[0]));
        assert(cur.push(w[0]) + t =~= cur + w);
    }
}

/// A word is its own single word.
pub proof fn lemma_words_of_word(w: Seq<char>)
    requires
        is_word(w),
    ensures
        words(w) == seq![w],
{
    lemma_words_of_run(w, Seq::<char>::empty());
}

/// The words of two texts joined by a space are the words of the first
/// followed by the words of the second.
pub proof fn lemma_words_across_space(a: Seq<char>, b: Seq<char>, cur: Seq<char>)
    ensures
        words_from(a + seq![' '] + b, cur) == words_from(a, cur) + words(b),
    decreases a.len(),
{
    let joined = a + seq![' '] + b;
    if a.len() == 0 {
        assert(joined.drop_first() =~= b);
    } else {
        assert(joined.drop_first() =~= a.drop_first() + seq![' '] + b);
        if is_space(a[0]) {
            lemma_words_across_space(a.drop_first(), b, Seq::<char>::empty());
        } else {
            lemma_words_across_space(a.drop_first(), b, cur.push(a[0]));
        }
    }
}

/// Every word of a text is a word: not empty and free of white space.
pub proof fn lemma_words_are_words(s: Seq<char>, cur: Seq<char>)
    requires
        forall|i: int| 0 <= i < cur.len() ==> !is_space(#[trigger] cur[i]),
    ensures
        all_words(words_from(s, cur)),
    decreases s.len(),
{
    if s.len() > 0 {
        if is_space(s[0]) {
            lemma_words_are_words(s.drop_first(), Seq::<char>::empty());
        } else {
            lemma_words_are_words(s.drop_first(), cur.push(s[0]));
        }
    }
}

/// Wrapping keeps the words: the words of the lines, read in order, are the
/// words of the line in progress followed by the words still to place.
pub proof fn lemma_wrap_keeps_words(ws: Seq<Seq<char>>, cur: Seq<char>, max: nat)
    requires
        all_words(ws),
    ensures
        line_words(wrap_from(ws, cur, max)) == words(cur) + ws,
    decreases ws.len(),
{
    if ws.len() == 0 {
        if cur.len() > 0 {
            assert(pending(cur).drop_first() =~= Seq::<Seq<char>>::empty());
            assert(words(cur) + line_words(Seq::<Seq<char>>::empty()) =~= words(cur));
        }
    } else {
        let w = ws[0];
        let rest = ws.drop_first();
        lemma_words_of_word(w);
        if overflows(cur, w, max) {
            lemma_wrap_keeps_words(rest, w, max);
            let tail = wrap_from(rest, w, max);
            assert((seq![cur] + tail).drop_first() =~= tail);
        } else {
            lemma_wrap_keeps_words(rest, extended(cur, w), max);
            if cur.len() > 0 {
                lemma_words_across_space(cur, w, Seq::<char>::empty());
            }
        }
    }
}

/// The words of the wrapped lines are the words of the text: wrapping moves no
/// word, drops none and breaks none.
pub proof fn lemma_wrap_round_trip(text: Seq<char>, max: nat)
    ensures
        line_words(wrap_spec(text, max)) == words(text),
        all_words(words(text)),
{
    lemma_words_are_words(text, Seq::<char>::empty());
    lemma_wrap_keeps_words(words(text), Seq::<char>::empty(), max);
}

/// A line as wrapping leaves it: not empty, and with a character that is not
/// white space at either end.
pub open spec fn is_tidy(line: Seq<char>) -> bool {
    line.len() > 0 && !is_space(line[0]) && !is_space(line.last())
}

/// Every line that wrapping makes of words is tidy, so that trimming it would
/// change nothing.
pub proof fn lemma_wrap_is_tidy(ws: Seq<Seq<char>>, cur: Seq<char>, max: nat)
    requires
        all_words(ws),
        cur.len() == 0 || is_tidy(cur),
    ensures
        forall|j: int|
            0 <= j < wrap_from(ws, cur, max).len() ==> is_tidy(
                #[trigger] wrap_from(ws, cur, max)[j],
            ),
    decreases ws.len(),
{
    if ws.len() > 0 {
        let w = ws[0];
        let rest = ws.drop_first();
        if overflows(cur, w, max) {
            lemma_wrap_is_tidy(rest, w, max);
            assert(wrap_from(ws, cur, max) == seq![cur] + wrap_from(rest, w, max));
        } else {
            lemma_wrap_is_tidy(rest, extended(cur, w), max);
            assert(wrap_from(ws, cur, max) == wrap_from(rest, extended(cur, w), max));
        }
    }
}

/// Every wrapped line is tidy: it is not empty and neither begins nor ends
/// with white space.
pub proof fn lemma_wrapped_lines_tidy(text: Seq<char>, max: nat)
    ensures
        forall|j: int|
            0 <= j < wrap_spec(text, max).len() ==> is_tidy(#[trigger] wrap_spec(text, max)[j]),
{
    lemma_words_are_words(text, Seq::<char>::empty());
    lemma_wrap_is_tidy(words(text), Seq::<char>::empty(), max);
}

/// No line grows beyond a bound that is at least `max`, the length of the line
/// in progress, and the length of every word still to place.
pub proof fn lemma_wrap_bound(ws: Seq<Seq<char>>, cur: Seq<char>, max: nat, bound: nat)
    requires
        bound >= max,
        utf8_len(cur) <= bound,
        forall|i: int| 0 <= i < ws.len() ==> utf8_len(#[trigger] ws[i]) <= bound,
    ensures
        forall|j: int|
            0 <= j < wrap_from(ws, cur, max).len() ==> utf8_len(
                #[trigger] wrap_from(ws, cur, max)[j],
            ) <= bound,
    decreases ws.len(),
{
    if ws.len() > 0 {
        let w = ws[0];
        let rest = ws.drop_first();
        if overflows(cur, w, max) {
            lemma_wrap_bound(rest, w, max, bound);
            assert(wrap_from(ws, cur, max) == seq![cur] + wrap_from(rest, w, max));
        } else {
            if cur.len() > 0 {
                lemma_utf8_len_concat(cur, seq![' ']);
                lemma_utf8_len_concat(cur + seq![' '], w);
                lemma_utf8_len_space();
            }
            lemma_wrap_bound(rest, extended(cur, w), max, bound);
            assert(wrap_from(ws, cur, max) == wrap_from(rest, extended(cur, w), max));
        }
    }
}

/// Every wrapped line is at most `max` bytes long, or as long as the longest
/// single word where that word is longer than `max`.
pub proof fn lemma_wrapped_lines_short(text: Seq<char>, max: nat)
    ensures
        forall|j: int|
            0 <= j < wrap_spec(text, max).len() ==> utf8_len(#[trigger] wrap_spec(text, max)[j])
                <= larger(max, longest(words(text))),
{
    let ws = words(text);
    let bound = larger(max, longest(ws));
    assert forall|i: int| 0 <= i < ws.len() implies utf8_len(#[trigger] ws[i]) <= bound by {
        lemma_longest(ws, i);
    }
    lemma_wrap_bound(ws, Seq::<char>::empty(), max, bound);
}

/// With measurable words no line grows wider than a bound that is at least
/// `max`, the width of the line in progress, and the width of every word still
/// to place.
pub proof fn lemma_wrap_width_bound(ws: Seq<Seq<char>>, cur: Seq<char>, max: nat, bound: nat)
    requires
        bound >= max,
        is_measurable(cur),
        visible_width_spec(cur) <= bound,
        forall|i: int|
            0 <= i < ws.len() ==> is_measurable(#[trigger] ws[i]) && visible_width_spec(ws[i])
                <= bound,
    ensures
        forall|j: int|
            0 <= j < wrap_from(ws, cur, max).len() ==> is_measurable(
                #[trigger] wrap_from(ws, cur, max)[j],
            ) && visible_width_spec(wrap_from(ws, cur, max)[j]) <= bound,
    decreases ws.len(),
{
    if ws.len() > 0 {
        let w = ws[0];
        let rest = ws.drop_first();
        if overflows(cur, w, max) {
            lemma_wrap_width_bound(rest, w, max, bound);
            assert(wrap_from(ws, cur, max) == seq![cur] + wrap_from(rest, w, max));
        } else {
            let next = extended(cur, w);
            if cur.len() > 0 {
                let gap = seq![' '];
                lemma_plain_ascii_width(gap);
                lemma_measurable_concat(cur, gap);
                lemma_measurable_concat(cur + gap, w);
                lemma_width_within_bytes(next);
                lemma_utf8_len_concat(cur, gap);
                lemma_utf8_len_concat(cur + gap, w);
                lemma_utf8_len_space();
            }
            lemma_wrap_width_bound(rest, next, max, bound);
            assert(wrap_from(ws, cur, max) == wrap_from(rest, next, max));
        }
    }
}

/// Where every word of the text is measurable, every wrapped line is at most
/// `max` cells wide, or as wide as the widest single word where that word is
/// wider than `max`.
pub proof fn lemma_wrapped_lines_fit(text: Seq<char>, max: nat)
    requires
        forall|i: int| 0 <= i < words(text).len() ==> is_measurable(#[trigger] words(text)[i]),
    ensures
        forall|j: int|
            0 <= j < wrap_spec(text, max).len() ==> visible_width_spec(
                #[trigger] wrap_spec(text, max)[j],
            ) <= larger(max, widest(words(text))),
{
    let ws = words(text);
    let bound = larger(max, widest(ws));
    assert forall|i: int| 0 <= i < ws.len() implies is_measurable(#[trigger] ws[i])
        && visible_width_spec(ws[i]) <= bound by {
        lemma_widest(ws, i);
    }
    let none = Seq::<char>::empty();
    lemma_plain_ascii_width(none);
    lemma_wrap_width_bound(ws, none, max, bound);
}

/// Wraps a text greedily: words are put on the current line, one space apart,
/// while line, space and word together stay within `max_line_length` bytes; a
/// word that no longer fits starts the next line, and a word longer than the
/// limit stands alone on its line, unbroken. A text without words gives no
/// line.
pub fn break_long_text(text: &str, max_line_length: usize) -> (lines: Vec<String>)
    ensures
        texts(lines@) == wrap_spec(text@, max_line_length as nat),
        line_words(texts(lines@)) == words(text@),
        text@.len() == 0 ==> lines@.len() == 0,
{
    let ws = split_words(text);
    let mut lines: Vec<String> = Vec::new();
    let mut cur = String::new();
    let mut i: usize = 0;
    assert(words(text@).skip(0) =~= words(text@));
    while i < ws.len()
        invariant
            i <= ws.len(),
            texts(ws@) == words(text@),
            wrap_spec(text@, max_line_length as nat) == texts(lines@) + wrap_from(
                words(text@).skip(i as int),
                cur@,
                max_line_length as nat,
            ),
        decreases ws.len() - i,
    {
        let ghost rest = words(text@).skip(i as int);
        let ghost line = cur@;
        let word = ws[i].as_str();
        assert(rest.drop_first() =~= words(text@).skip(i + 1));
        let cur_len = cur.as_str().as_bytes().len();
        let word_len = word.as_bytes().len();
        let full = cur_len >= max_line_length || word_len >= max_line_length - cur_len;
        if full && !cur.as_str().is_empty() {
            lines.push(cur);
            cur = String::new();
            cur.append(word);
        } else {
            if !cur.as_str().is_empty() {
                cur.push(' ');
            }
            cur.append(word);
            assert(cur@ =~= extended(line, word@));
        }
        i += 1;
    }
    if !cur.as_str().is_empty() {
        lines.push(cur);
    }
    proof {
        lemma_wrap_round_trip(text@, max_line_length as nat);
    }
    lines
}

} // verus!
