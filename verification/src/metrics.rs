use crate::text::lemma_utf8_len_concat;
use crate::text::texts;
use crate::text::utf8_len;
use unicode_width::UnicodeWidthChar;
use unicode_width::UnicodeWidthStr;
use vstd::prelude::*;

verus! {

/// The escape character that opens every terminal control sequence.
pub open spec fn is_escape(c: char) -> bool {
    c == '\u{1b}'
}

/// A character that may stand between the opening `ESC [` and the closing `m`
/// of a styling sequence: a decimal digit or a semicolon.
pub open spec fn is_param_char(c: char) -> bool {
    ('0' <= c && c <= '9') || c == ';'
}

/// How many parameter characters stand at the head of `s`.
pub open spec fn param_run(s: Seq<char>) -> nat
    decreases s.len(),
{
    if s.len() > 0 && is_param_char(s[0]) {
        1 + param_run(s.drop_first())
    } else {
        0
    }
}

/// The length of the styling sequence (`ESC [`, parameters, `m`) that `s`
/// begins with, or 0 when `s` does not begin with one.
pub open spec fn styling_len(s: Seq<char>) -> nat {
    if s.len() >= 2 && is_escape(s[0]) && s[1] == '[' {
        let k = param_run(s.skip(2));
        if 2 + k < s.len() && s[2 + k as int] == 'm' {
            3 + k
        } else {
            0
        }
    } else {
        0
    }
}

/// Text in which every escape character opens a complete styling sequence.
pub open spec fn well_styled(s: Seq<char>) -> bool
    decreases s.len(),
{
    if s.len() == 0 {
        true
    } else if is_escape(s[0]) {
        styling_len(s) > 0 && well_styled(s.skip(styling_len(s) as int))
    } else {
        well_styled(s.drop_first())
    }
}

/// Text that consists of styling sequences and nothing else.
pub open spec fn only_styling(s: Seq<char>) -> bool
    decreases s.len(),
{
    s.len() == 0 || (styling_len(s) > 0 && only_styling(s.skip(styling_len(s) as int)))
}

/// A character that reaches the screen when it stands outside an escape
/// sequence: everything but the C0 controls other than line feed and the C1
/// controls.
pub open spec fn is_printed(c: char) -> bool {
    c == '\n' || !(c <= '\u{1f}' || ('\u{80}' <= c && c <= '\u{9f}'))
}

/// What is left of well-styled text once its styling sequences and the
/// controls that are not printed are taken out.
pub open spec fn shown_part(s: Seq<char>) -> Seq<char>
    decreases s.len(),
{
    if s.len() == 0 {
        Seq::<char>::empty()
    } else if is_escape(s[0]) {
        if styling_len(s) > 0 {
            shown_part(s.skip(styling_len(s) as int))
        } else {
            Seq::<char>::empty()
        }
    } else if is_printed(s[0]) {
        seq![s[0]] + shown_part(s.drop_first())
    } else {
        shown_part(s.drop_first())
    }
}

/// What `strip_ansi_escapes::strip_str` returns for the given text.
pub uninterp spec fn stripped_text(s: Seq<char>) -> Seq<char>;

/// What `unicode_width::UnicodeWidthStr::width` returns for the given text.
pub uninterp spec fn text_columns(s: Seq<char>) -> nat;

/// What `unicode_width::UnicodeWidthChar::width` returns for the given
/// character, with 0 for a character that has no width.
pub uninterp spec fn char_columns(c: char) -> nat;

/// The text that stays visible once escape sequences are stripped.
pub open spec fn visible_text(s: Seq<char>) -> Seq<char> {
    if well_styled(s) {
        shown_part(s)
    } else {
        stripped_text(s)
    }
}

/// A character that always takes exactly one cell: line feed, the printable
/// ASCII characters with DEL, and the box-drawing block.
pub open spec fn is_single_cell(c: char) -> bool {
    c == '\n' || (' ' <= c && c <= '\u{7f}') || ('\u{2500}' <= c && c <= '\u{257f}')
}

/// Text made of single-cell characters only.
pub open spec fn all_single_cell(s: Seq<char>) -> bool {
    forall|i: int| 0 <= i < s.len() ==> is_single_cell(#[trigger] s[i])
}

/// A character that always takes two cells: the Hiragana letters, the
/// Katakana block, the CJK unified ideographs, the Hangul syllables and the
/// fullwidth forms.
pub open spec fn is_wide(c: char) -> bool {
    ||| ('\u{3041}' <= c && c <= '\u{3096}')
    ||| ('\u{30a0}' <= c && c <= '\u{30ff}')
    ||| ('\u{4e00}' <= c && c <= '\u{9fff}')
    ||| ('\u{ac00}' <= c && c <= '\u{d7a3}')
    ||| ('\u{ff01}' <= c && c <= '\u{ff60}')
}

/// A character that never takes a cell: the combining diacritical marks.
pub open spec fn is_combining(c: char) -> bool {
    '\u{300}' <= c && c <= '\u{36f}'
}

/// A character whose width is the same wherever it stands.
pub open spec fn is_steady(c: char) -> bool {
    is_single_cell(c) || is_wide(c) || is_combining(c)
}

/// The cells that a steady character takes.
pub open spec fn cells_of(c: char) -> nat {
    if is_single_cell(c) {
        1
    } else if is_wide(c) {
        2
    } else {
        0
    }
}

/// Text made of steady characters only.
pub open spec fn all_steady(s: Seq<char>) -> bool {
    forall|i: int| 0 <= i < s.len() ==> is_steady(#[trigger] s[i])
}

/// The cells that the characters of a text take together.
pub open spec fn cell_sum(s: Seq<char>) -> nat
    decreases s.len(),
{
    if s.len() == 0 {
        0
    } else {
        cell_sum(s.drop_last()) + cells_of(s.last())
    }
}

/// The number of terminal cells that escape-free text takes.
pub open spec fn cell_count(s: Seq<char>) -> nat {
    if all_steady(s) {
        cell_sum(s)
    } else {
        text_columns(s)
    }
}

/// The display width of a string: the cells of its visible text.
pub open spec fn visible_width_spec(s: Seq<char>) -> nat {
    cell_count(visible_text(s))
}

/// The cells that one character takes when it is measured alone: none for a
/// control character, line feed and DEL among them.
pub open spec fn char_width_spec(c: char) -> nat {
    if c < ' ' || ('\u{7f}' <= c && c <= '\u{9f}') {
        0
    } else if is_steady(c) {
        cells_of(c)
    } else {
        char_columns(c)
    }
}

/// The larger of two numbers.
pub open spec fn larger(a: nat, b: nat) -> nat {
    if a >= b {
        a
    } else {
        b
    }
}

/// The display width of the widest text of the list, 0 for an empty list.
pub open spec fn widest(ws: Seq<Seq<char>>) -> nat
    decreases ws.len(),
{
    if ws.len() == 0 {
        0
    } else {
        larger(widest(ws.drop_last()), visible_width_spec(ws.last()))
    }
}

/// ASCII text without control characters other than line feed.
pub open spec fn is_plain_ascii(s: Seq<char>) -> bool {
    forall|i: int| 0 <= i < s.len() ==> {
        let c = #[trigger] s[i];
        c == '\n' || (' ' <= c && c <= '\u{7f}')
    }
}

/// Text that can be measured cell by cell: it is well styled and each of its
/// visible characters is steady.
pub open spec fn is_measurable(s: Seq<char>) -> bool {
    well_styled(s) && all_steady(shown_part(s))
}

/// Calls `strip_ansi_escapes::strip_str`. The crate's parser leaves the ground
/// state only at an escape character, and `ESC [ parameters m` brings it back
/// without output; in the ground state it writes every character but the
/// controls. For text in which each escape opens such a sequence the result is
/// therefore known; for any other text it is only named.
#[verifier::external_body]
fn strip_escapes(s: &str) -> (r: String)
    ensures
        r@ == (if well_styled(s@) {
            shown_part(s@)
        } else {
            stripped_text(s@)
        }),
{
    strip_ansi_escapes::strip_str(s)
}

/// Calls `unicode_width::UnicodeWidthStr::width`. By the crate's rules a line
/// feed, a printable ASCII character, DEL and a box-drawing character count one
/// column each, a wide character two and a combining diacritical mark none,
/// and no such character joins a neighbour, so that text made of them takes
/// the sum of their columns; the width of any other text is only named.
#[verifier::external_body]
fn count_columns(s: &str) -> (n: usize)
    ensures
        n as nat == (if all_steady(s@) {
            cell_sum(s@)
        } else {
            text_columns(s@)
        }),
{
    UnicodeWidthStr::width(s)
}

/// Calls `unicode_width::UnicodeWidthChar::width` and reads "no width" as 0.
/// The crate gives no width to the characters below the space and from DEL to
/// U+009F, and to any other steady character the columns that it takes in
/// text; the width of any other character is only named.
#[verifier::external_body]
fn count_char_columns(c: char) -> (n: usize)
    ensures
        n as nat == (if c < ' ' || ('\u{7f}' <= c && c <= '\u{9f}') {
            0
        } else if is_steady(c) {
            cells_of(c)
        } else {
            char_columns(c)
        }),
{
    UnicodeWidthChar::width(c).unwrap_or(0)
}

/// A run of parameter characters is no longer than the text it stands in.
pub proof fn lemma_param_run_bound(s: Seq<char>)
    ensures
        param_run(s) <= s.len(),
    decreases s.len(),
{
    if s.len() > 0 && is_param_char(s[0]) {
        lemma_param_run_bound(s.drop_first());
    }
}

/// A run of parameter characters has the length `k` if the first `k`
/// characters are parameter characters and the next one, if any, is not.
pub proof fn lemma_param_run_is(s: Seq<char>, k: nat)
    requires
        k <= s.len(),
        forall|i: int| 0 <= i < k ==> is_param_char(#[trigger] s[i]),
        k == s.len() || !is_param_char(s[k as int]),
    ensures
        param_run(s) == k,
    decreases k,
{
    if k > 0 {
        let t = s.drop_first();
        lemma_param_run_is(t, (k - 1) as nat);
    }
}

/// A run of parameter characters that ends inside `a` is not changed by what
/// follows `a`.
pub proof fn lemma_param_run_prefix(a: Seq<char>, b: Seq<char>)
    requires
        param_run(a) < a.len(),
    ensures
        param_run(a + b) == param_run(a),
    decreases a.len(),
{
    if is_param_char(a[0]) {
        assert((a + b).drop_first() =~= a.drop_first() + b);
        lemma_param_run_prefix(a.drop_first(), b);
    }
}

/// A styling sequence at the head of `a` is the styling sequence at the head
/// of `a + b`.
pub proof fn lemma_styling_len_prefix(a: Seq<char>, b: Seq<char>)
    requires
        styling_len(a) > 0,
    ensures
        styling_len(a + b) == styling_len(a),
        styling_len(a) <= a.len(),
{
    assert((a + b).skip(2) =~= a.skip(2) + b);
    lemma_param_run_prefix(a.skip(2), b);
}

/// Stripping works piece by piece: after well-styled text the parser is back
/// in its ground state, so what follows is handled as if it stood alone.
pub proof fn lemma_styled_concat(a: Seq<char>, b: Seq<char>)
    requires
        well_styled(a),
    ensures
        well_styled(a + b) == well_styled(b),
        shown_part(a + b) == shown_part(a) + shown_part(b),
    decreases a.len(),
{
    if a.len() == 0 {
        assert(a + b =~= b);
    } else if is_escape(a[0]) {
        let n = styling_len(a);
        lemma_styling_len_prefix(a, b);
        assert((a + b).skip(n as int) =~= a.skip(n as int) + b);
        lemma_styled_concat(a.skip(n as int), b);
    } else {
        assert((a + b).drop_first() =~= a.drop_first() + b);
        lemma_styled_concat(a.drop_first(), b);
    }
}

/// Text without an escape character is well styled, and if each of its
/// characters is printed it is shown unchanged.
pub proof fn lemma_escape_free(s: Seq<char>)
    requires
        forall|i: int| 0 <= i < s.len() ==> !is_escape(#[trigger] s[i]),
    ensures
        well_styled(s),
        (forall|i: int| 0 <= i < s.len() ==> is_printed(#[trigger] s[i])) ==> shown_part(s) == s,
        shown_part(s).len() <= s.len(),
    decreases s.len(),
{
    if s.len() > 0 {
        lemma_escape_free(s.drop_first());
    }
}

/// The visible part of well-styled text is no longer than the text.
pub proof fn lemma_shown_part_bound(s: Seq<char>)
    requires
        well_styled(s),
    ensures
        shown_part(s).len() <= s.len(),
    decreases s.len(),
{
    if s.len() > 0 {
        if is_escape(s[0]) {
            lemma_param_run_bound(s.skip(2));
            lemma_shown_part_bound(s.skip(styling_len(s) as int));
        } else {
            lemma_shown_part_bound(s.drop_first());
        }
    }
}

/// Text that holds styling sequences only has no visible part.
pub proof fn lemma_only_styling_shows_nothing(s: Seq<char>)
    requires
        only_styling(s),
    ensures
        well_styled(s),
        shown_part(s) == Seq::<char>::empty(),
    decreases s.len(),
{
    if s.len() > 0 {
        let n = styling_len(s);
        lemma_param_run_bound(s.skip(2));
        lemma_only_styling_shows_nothing(s.skip(n as int));
    }
}

/// Styling alone takes no cell.
pub proof fn lemma_styling_has_no_width(s: Seq<char>)
    requires
        only_styling(s),
    ensures
        visible_width_spec(s) == 0,
{
    lemma_only_styling_shows_nothing(s);
}

/// The cells of a text are the cells of its parts together.
pub proof fn lemma_cell_sum_concat(a: Seq<char>, b: Seq<char>)
    ensures
        cell_sum(a + b) == cell_sum(a) + cell_sum(b),
    decreases b.len(),
{
    if b.len() == 0 {
        assert(a + b =~= a);
    } else {
        assert((a + b).drop_last() =~= a + b.drop_last());
        lemma_cell_sum_concat(a, b.drop_last());
    }
}

/// Text of single-cell characters takes one cell for each of them.
pub proof fn lemma_single_cell_sum(s: Seq<char>)
    requires
        all_single_cell(s),
    ensures
        all_steady(s),
        cell_sum(s) == s.len(),
    decreases s.len(),
{
    if s.len() > 0 {
        let t = s.drop_last();
        assert forall|i: int| 0 <= i < t.len() implies is_single_cell(#[trigger] t[i]) by {
            assert(t[i] == s[i]);
        }
        lemma_single_cell_sum(t);
        assert(is_single_cell(s.last()));
    }
}

/// Plain ASCII text takes one cell for each of its characters.
pub proof fn lemma_plain_ascii_width(s: Seq<char>)
    requires
        is_plain_ascii(s),
    ensures
        is_measurable(s),
        shown_part(s) == s,
        visible_width_spec(s) == s.len(),
{
    lemma_escape_free(s);
    lemma_single_cell_sum(s);
}

/// A steady character takes no more cells than bytes.
pub proof fn lemma_cells_within_bytes(s: Seq<char>)
    requires
        all_steady(s),
    ensures
        cell_sum(s) <= utf8_len(s),
    decreases s.len(),
{
    if s.len() > 0 {
        let t = s.drop_last();
        let c = s.last();
        assert forall|i: int| 0 <= i < t.len() implies is_steady(#[trigger] t[i]) by {
            assert(t[i] == s[i]);
        }
        lemma_cells_within_bytes(t);
        assert(t + seq![c] =~= s);
        lemma_utf8_len_concat(t, seq![c]);
        assert(is_steady(c));
        vstd::utf8::char_is_scalar(c);
        assert(seq![c].drop_first() =~= Seq::<char>::empty());
        assert(utf8_len(Seq::<char>::empty()) == 0);
        assert(utf8_len(seq![c]) == vstd::utf8::encode_scalar(c as u32).len());
        if is_wide(c) && !is_single_cell(c) {
            assert(c as u32 >= 0x3041);
        }
    }
}

/// What well-styled text shows takes no more bytes than the text.
pub proof fn lemma_shown_within_bytes(s: Seq<char>)
    requires
        well_styled(s),
    ensures
        utf8_len(shown_part(s)) <= utf8_len(s),
    decreases s.len(),
{
    if s.len() > 0 {
        if is_escape(s[0]) {
            let n = styling_len(s);
            lemma_param_run_bound(s.skip(2));
            lemma_shown_within_bytes(s.skip(n as int));
            assert(s.take(n as int) + s.skip(n as int) =~= s);
            lemma_utf8_len_concat(s.take(n as int), s.skip(n as int));
        } else {
            let rest = s.drop_first();
            lemma_shown_within_bytes(rest);
            assert(seq![s[0]] + rest =~= s);
            lemma_utf8_len_concat(seq![s[0]], rest);
            lemma_utf8_len_concat(seq![s[0]], shown_part(rest));
        }
    }
}

/// Measurable text takes no more cells than bytes.
pub proof fn lemma_width_within_bytes(s: Seq<char>)
    requires
        is_measurable(s),
    ensures
        visible_width_spec(s) <= utf8_len(s),
{
    lemma_cells_within_bytes(shown_part(s));
    lemma_shown_within_bytes(s);
}

/// Measurable text takes the cells of its visible characters, and measurable
/// pieces put side by side take the sum of their cells.
pub proof fn lemma_measurable_concat(a: Seq<char>, b: Seq<char>)
    requires
        is_measurable(a),
        is_measurable(b),
    ensures
        is_measurable(a + b),
        visible_width_spec(a) == cell_sum(shown_part(a)),
        visible_width_spec(a + b) == visible_width_spec(a) + visible_width_spec(b),
{
    lemma_styled_concat(a, b);
    lemma_cell_sum_concat(shown_part(a), shown_part(b));
}

/// No text of a list is wider than the widest.
pub proof fn lemma_widest(ws: Seq<Seq<char>>, i: int)
    requires
        0 <= i < ws.len(),
    ensures
        visible_width_spec(ws[i]) <= widest(ws),
    decreases ws.len(),
{
    if i < ws.len() - 1 {
        lemma_widest(ws.drop_last(), i);
    }
}

/// The display width of a string in terminal cells: escape sequences are
/// stripped, then the columns of what is left are counted.
pub fn visible_width(s: &str) -> (w: usize)
    ensures
        w as nat == visible_width_spec(s@),
        only_styling(s@) ==> w == 0,
        is_plain_ascii(s@) ==> w == s@.len(),
        is_measurable(s@) ==> w == cell_sum(shown_part(s@)),
{
    let stripped = strip_escapes(s);
    proof {
        if only_styling(s@) {
            lemma_styling_has_no_width(s@);
        }
        if is_plain_ascii(s@) {
            lemma_plain_ascii_width(s@);
        }
    }
    count_columns(stripped.as_str())
}

/// The display width of the widest of the given lines, 0 where there is none.
pub fn max_visible_width(lines: &[String]) -> (w: usize)
    ensures
        w as nat == widest(texts(lines@)),
{
    let mut w: usize = 0;
    let mut i: usize = 0;
    while i < lines.len()
        invariant
            i <= lines.len(),
            w as nat == widest(texts(lines@).take(i as int)),
        decreases lines.len() - i,
    {
        let width = visible_width(lines[i].as_str());
        assert(texts(lines@).take(i + 1).drop_last() =~= texts(lines@).take(i as int));
        if width > w {
            w = width;
        }
        i += 1;
    }
    assert(texts(lines@).take(lines@.len() as int) =~= texts(lines@));
    w
}

/// The cells that one character takes when it is measured alone; a character
/// without a width counts 0.
pub fn char_width(c: char) -> (w: usize)
    ensures
        w as nat == char_width_spec(c),
{
    count_char_columns(c)
}

} // verus!
