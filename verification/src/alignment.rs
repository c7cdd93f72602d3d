use crate::layout::BORDER_COLUMNS;
use crate::layout::label_width;
use crate::layout::LayoutMode;
use crate::layout::lemma_column_widths;
use crate::layout::minus;
use crate::layout::mode_for;
use crate::metrics::all_single_cell;
use crate::metrics::is_measurable;
use crate::metrics::larger;
use crate::metrics::lemma_escape_free;
use crate::metrics::lemma_measurable_concat;
use crate::metrics::lemma_single_cell_sum;
use crate::metrics::lemma_widest;
use crate::metrics::shown_part;
use crate::metrics::visible_width_spec;
use crate::metrics::widest;
use crate::painting::is_painting_of;
use crate::painting::lemma_painting;
use crate::render::art_row;
use crate::render::border_row;
use crate::render::closed_row;
use crate::render::Frame;
use crate::render::gap_width;
use crate::render::is_dressing_of;
use crate::render::is_frame;
use crate::render::is_side_by_side_output;
use crate::render::is_stacked_output;
use crate::render::MIN_GAP;
use crate::render::padded;
use crate::render::pair_left;
use crate::render::pair_row;
use crate::render::separator_row;
use crate::render::separator_rows;
use crate::render::side_art;
use crate::render::side_left;
use crate::render::side_row;
use crate::summary::displayed_art;
use crate::summary::is_summary_output;
use crate::text::blanks;
use crate::text::repeated;
use vstd::prelude::*;

verus! {

/// Whether every label is measurable and no wider than the label column.
pub open spec fn measurable_labels(info: Seq<(String, String)>, label_width: nat) -> bool {
    forall|i: int|
        0 <= i < info.len() ==> is_measurable((#[trigger] info[i]).0@) && visible_width_spec(
            info[i].0@,
        ) <= label_width
}

/// Whether every value is measurable.
pub open spec fn measurable_values(info: Seq<(String, String)>) -> bool {
    forall|i: int| 0 <= i < info.len() ==> is_measurable((#[trigger] info[i]).1@)
}

/// Whether every art line is measurable and no wider than the art column.
pub open spec fn measurable_art(art: Seq<Seq<char>>, art_width: nat) -> bool {
    forall|i: int|
        0 <= i < art.len() ==> is_measurable(#[trigger] art[i]) && visible_width_spec(art[i])
            <= art_width
}

/// The width of the left half of the side-by-side row with the given index.
pub open spec fn side_left_width(info: Seq<(String, String)>, label_width: nat, i: int) -> nat {
    if 0 <= i < info.len() {
        label_width + 3 + visible_width_spec(info[i].1@)
    } else {
        label_width + 3
    }
}

/// The width of the art part of the side-by-side row with the given index.
pub open spec fn side_art_width(art: Seq<Seq<char>>, art_width: nat, i: int) -> nat {
    if 0 <= i < art.len() {
        visible_width_spec(art[i])
    } else {
        art_width
    }
}

/// Whether the content of the side-by-side row with the given index fits in
/// the box: left half, least gap and art reach the right border at most.
pub open spec fn side_row_fits(
    art: Seq<Seq<char>>,
    info: Seq<(String, String)>,
    label_width: nat,
    art_width: nat,
    content_width: nat,
    i: int,
) -> bool {
    side_left_width(info, label_width, i) + MIN_GAP as nat + side_art_width(art, art_width, i)
        <= content_width + 1
}

/// Whether the pair with the given index fits in a row of its own.
pub open spec fn pair_row_fits(
    info: Seq<(String, String)>,
    label_width: nat,
    content_width: nat,
    i: int,
) -> bool {
    label_width + 3 + visible_width_spec(info[i].1@) <= content_width + 1
}

/// Text of single-cell characters shows as it is and takes one cell for each
/// character.
pub proof fn lemma_single_cells(t: Seq<char>)
    requires
        all_single_cell(t),
    ensures
        is_measurable(t),
        shown_part(t) == t,
        visible_width_spec(t) == t.len(),
{
    lemma_escape_free(t);
    lemma_single_cell_sum(t);
}

/// Blank space takes one cell for each space.
pub proof fn lemma_blanks(n: nat)
    ensures
        all_single_cell(blanks(n)),
        is_measurable(blanks(n)),
        visible_width_spec(blanks(n)) == n,
{
    lemma_single_cells(blanks(n));
}

/// A piece that takes one cell, repeated `n` times, takes `n` cells.
pub proof fn lemma_repeated(piece: Seq<char>, n: nat)
    requires
        is_measurable(piece),
        visible_width_spec(piece) == 1,
    ensures
        is_measurable(repeated(piece, n)),
        visible_width_spec(repeated(piece, n)) == n,
    decreases n,
{
    if n == 0 {
        lemma_single_cells(Seq::<char>::empty());
    } else {
        lemma_repeated(piece, (n - 1) as nat);
        lemma_measurable_concat(repeated(piece, (n - 1) as nat), piece);
    }
}

/// Three measurable pieces side by side take the sum of their cells.
pub proof fn lemma_three_pieces(a: Seq<char>, b: Seq<char>, c: Seq<char>)
    requires
        is_measurable(a),
        is_measurable(b),
        is_measurable(c),
    ensures
        is_measurable(a + b + c),
        visible_width_spec(a + b + c) == visible_width_spec(a) + visible_width_spec(b)
            + visible_width_spec(c),
{
    lemma_measurable_concat(a, b);
    lemma_measurable_concat(a + b, c);
}

/// A border row is as wide as the content and the two corners.
pub proof fn lemma_border_row_width(
    left_corner: Seq<char>,
    horizontal: Seq<char>,
    right_corner: Seq<char>,
    left_glyph: char,
    rule_glyph: char,
    right_glyph: char,
    content_width: nat,
)
    requires
        is_painting_of(left_corner, seq![left_glyph]),
        is_painting_of(horizontal, seq![rule_glyph]),
        is_painting_of(right_corner, seq![right_glyph]),
        all_single_cell(seq![left_glyph]),
        all_single_cell(seq![rule_glyph]),
        all_single_cell(seq![right_glyph]),
    ensures
        visible_width_spec(border_row(left_corner, horizontal, right_corner, content_width))
            == content_width + 2,
{
    lemma_single_cells(seq![left_glyph]);
    lemma_single_cells(seq![rule_glyph]);
    lemma_single_cells(seq![right_glyph]);
    lemma_painting(left_corner, seq![left_glyph]);
    lemma_painting(horizontal, seq![rule_glyph]);
    lemma_painting(right_corner, seq![right_glyph]);
    lemma_repeated(horizontal, content_width);
    lemma_three_pieces(left_corner, repeated(horizontal, content_width), right_corner);
}

/// A row whose content reaches the right border at most is closed at exactly
/// the width of the box; a row whose content runs further is closed right
/// behind its content.
pub proof fn lemma_closed_row_width(body: Seq<char>, content_width: nat, vertical: Seq<char>)
    requires
        is_measurable(body),
        is_measurable(vertical),
        visible_width_spec(vertical) == 1,
    ensures
        visible_width_spec(closed_row(body, content_width, vertical)) == larger(
            content_width + 2,
            visible_width_spec(body) + 1,
        ),
{
    let fill = blanks(minus(content_width + 1, visible_width_spec(body)));
    lemma_blanks(minus(content_width + 1, visible_width_spec(body)));
    lemma_three_pieces(body, fill, vertical);
}

/// The left half of a pair's row is measurable, and as wide as the border,
/// the label column, the two spaces and the value.
pub proof fn lemma_pair_left_width(
    vertical: Seq<char>,
    label: Seq<char>,
    value: Seq<char>,
    label_width: nat,
)
    requires
        is_measurable(vertical),
        visible_width_spec(vertical) == 1,
        is_measurable(label),
        visible_width_spec(label) == label_width,
        is_measurable(value),
    ensures
        is_measurable(pair_left(vertical, label, value)),
        visible_width_spec(pair_left(vertical, label, value)) == label_width + 3
            + visible_width_spec(value),
{
    let gap = seq![' '];
    lemma_single_cells(gap);
    lemma_three_pieces(vertical, gap, label);
    lemma_three_pieces(vertical + gap + label, gap, value);
}

/// A dressed label is measurable and exactly as wide as the label column.
pub proof fn lemma_dressed_label(painted: Seq<char>, label: Seq<char>, label_width: nat)
    requires
        is_painting_of(painted, padded(label, label_width)),
        is_measurable(label),
        visible_width_spec(label) <= label_width,
    ensures
        is_measurable(painted),
        visible_width_spec(painted) == label_width,
{
    let missing = minus(label_width, visible_width_spec(label));
    lemma_blanks(missing);
    lemma_measurable_concat(label, blanks(missing));
    lemma_painting(painted, padded(label, label_width));
}

/// The painted vertical border takes one cell.
pub proof fn lemma_vertical(frame: Frame)
    requires
        is_frame(frame),
    ensures
        is_measurable(frame.vertical@),
        visible_width_spec(frame.vertical@) == 1,
{
    lemma_single_cells(seq!['\u{2502}']);
    lemma_painting(frame.vertical@, seq!['\u{2502}']);
}

/// Both border rows of a box are as wide as the box.
pub proof fn lemma_borders_aligned(frame: Frame, content_width: nat)
    requires
        is_frame(frame),
    ensures
        visible_width_spec(crate::render::top_row(frame, content_width)) == content_width + 2,
        visible_width_spec(crate::render::bottom_row(frame, content_width)) == content_width + 2,
{
    lemma_border_row_width(
        frame.top_left@,
        frame.horizontal@,
        frame.top_right@,
        '\u{250c}',
        '\u{2500}',
        '\u{2510}',
        content_width,
    );
    lemma_border_row_width(
        frame.bottom_left@,
        frame.horizontal@,
        frame.bottom_right@,
        '\u{2514}',
        '\u{2500}',
        '\u{2518}',
        content_width,
    );
}

/// A side-by-side row is as wide as the box where its content fits, and
/// else as wide as its left half, the least gap, its art and the right border.
pub proof fn lemma_side_row_width(
    frame: Frame,
    art: Seq<Seq<char>>,
    info: Seq<(String, String)>,
    dressed: Seq<(String, String)>,
    label_width: nat,
    art_width: nat,
    content_width: nat,
    i: int,
)
    requires
        is_frame(frame),
        is_dressing_of(dressed, info, label_width),
        measurable_labels(info, label_width),
        measurable_values(info),
        measurable_art(art, art_width),
        0 <= i,
    ensures
        visible_width_spec(
            side_row(frame.vertical@, art, dressed, label_width, art_width, content_width, i),
        ) == larger(
            content_width + 2,
            side_left_width(info, label_width, i) + MIN_GAP as nat + side_art_width(
                art,
                art_width,
                i,
            ) + 1,
        ),
{
    let vertical = frame.vertical@;
    lemma_vertical(frame);
    let left = side_left(vertical, dressed, label_width, i);
    if i < dressed.len() {
        lemma_dressed_label(dressed[i].0@, info[i].0@, label_width);
        lemma_pair_left_width(vertical, dressed[i].0@, dressed[i].1@, label_width);
    } else {
        lemma_blanks(label_width + 2);
        lemma_measurable_concat(vertical, blanks(label_width + 2));
    }
    let picture = side_art(art, art_width, i);
    if i >= art.len() {
        lemma_blanks(art_width);
    }
    let gap = gap_width(left, art_width, content_width);
    lemma_blanks(gap);
    lemma_three_pieces(left, blanks(gap), picture);
    lemma_closed_row_width(left + blanks(gap) + picture, content_width, vertical);
}

/// The row of a centred art line is as wide as the box where the line is no
/// wider than the content, and else as wide as the line and the two borders.
pub proof fn lemma_art_row_width(frame: Frame, line: Seq<char>, content_width: nat)
    requires
        is_frame(frame),
        is_measurable(line),
    ensures
        visible_width_spec(art_row(line, content_width, frame.vertical@)) == larger(
            content_width + 2,
            visible_width_spec(line) + 2,
        ),
{
    let vertical = frame.vertical@;
    lemma_vertical(frame);
    let width = visible_width_spec(line);
    let left = minus(content_width, width) / 2;
    let right = minus(content_width, left + width);
    lemma_blanks(left);
    lemma_blanks(right);
    lemma_three_pieces(vertical, blanks(left), line);
    lemma_three_pieces(vertical + blanks(left) + line, blanks(right), vertical);
}

/// The blank row under the art is as wide as the box.
pub proof fn lemma_separator_row_width(frame: Frame, content_width: nat)
    requires
        is_frame(frame),
    ensures
        visible_width_spec(separator_row(content_width, frame.vertical@)) == content_width + 2,
{
    lemma_vertical(frame);
    lemma_blanks(content_width);
    lemma_three_pieces(frame.vertical@, blanks(content_width), frame.vertical@);
}

/// A pair's row in stacked mode is as wide as the box where the pair fits,
/// and else as wide as the pair and the right border.
pub proof fn lemma_pair_row_width(
    frame: Frame,
    info: Seq<(String, String)>,
    dressed: Seq<(String, String)>,
    label_width: nat,
    content_width: nat,
    i: int,
)
    requires
        is_frame(frame),
        is_dressing_of(dressed, info, label_width),
        measurable_labels(info, label_width),
        measurable_values(info),
        0 <= i < info.len(),
    ensures
        visible_width_spec(
            pair_row(frame.vertical@, dressed[i].0@, dressed[i].1@, content_width),
        ) == larger(content_width + 2, label_width + 3 + visible_width_spec(info[i].1@) + 1),
{
    let vertical = frame.vertical@;
    lemma_vertical(frame);
    lemma_dressed_label(dressed[i].0@, info[i].0@, label_width);
    lemma_pair_left_width(vertical, dressed[i].0@, dressed[i].1@, label_width);
    lemma_closed_row_width(
        pair_left(vertical, dressed[i].0@, dressed[i].1@),
        content_width,
        vertical,
    );
}

/// Whether the content of the stacked row with the given index fits in the
/// box: an art line is no wider than the content, a pair reaches the right
/// border at most. The borders and the blank row always fit.
pub open spec fn stacked_row_fits(
    art: Seq<Seq<char>>,
    info: Seq<(String, String)>,
    label_width: nat,
    content_width: nat,
    j: int,
) -> bool {
    let first_pair = 1 + art.len() + separator_rows(art, content_width, Seq::<char>::empty()).len();
    if 1 <= j <= art.len() {
        visible_width_spec(art[j - 1]) <= content_width
    } else if first_pair <= j < first_pair + info.len() {
        pair_row_fits(info, label_width, content_width, j - first_pair)
    } else {
        true
    }
}

/// The width of the row `j` of a side-by-side box: the width of the box for
/// the borders and for a row whose content fits, and for a row whose content
/// does not fit the width of its left half, the least gap, its art and the
/// right border.
pub open spec fn side_by_side_row_width(
    art: Seq<Seq<char>>,
    info: Seq<(String, String)>,
    label_width: nat,
    art_width: nat,
    content_width: nat,
    j: int,
) -> nat {
    if 0 < j <= larger(art.len(), info.len()) {
        larger(
            content_width + 2,
            side_left_width(info, label_width, j - 1) + MIN_GAP as nat + side_art_width(
                art,
                art_width,
                j - 1,
            ) + 1,
        )
    } else {
        content_width + 2
    }
}

/// The width of the row `j` of a stacked box: the width of the box for the
/// borders, the blank row and every row whose content fits, and for a row
/// whose content does not fit the width of that content and its borders.
pub open spec fn stacked_row_width(
    art: Seq<Seq<char>>,
    info: Seq<(String, String)>,
    label_width: nat,
    content_width: nat,
    j: int,
) -> nat {
    let first_pair = 1 + art.len() + separator_rows(art, content_width, Seq::<char>::empty()).len();
    if 1 <= j <= art.len() {
        larger(content_width + 2, visible_width_spec(art[j - 1]) + 2)
    } else if first_pair <= j < first_pair + info.len() {
        larger(
            content_width + 2,
            label_width + 3 + visible_width_spec(info[j - first_pair].1@) + 1,
        )
    } else {
        content_width + 2
    }
}

/// Every row of a side-by-side box whose content fits has the width of the
/// box: the content width and the two border columns. This holds of the
/// borders and of every row between them whose left half, least gap and art
/// reach the right border at most. A row whose content does not fit runs over
/// the right border and is wider than the box. All of this is stated for
/// measurable labels, values and art.
pub proof fn lemma_side_by_side_aligned(
    rows: Seq<Seq<char>>,
    frame: Frame,
    dressed: Seq<(String, String)>,
    art: Seq<Seq<char>>,
    info: Seq<(String, String)>,
    label_width: nat,
    art_width: nat,
    content_width: nat,
    j: int,
)
    requires
        is_side_by_side_output(
            rows,
            frame,
            dressed,
            art,
            info,
            label_width,
            art_width,
            content_width,
        ),
        measurable_labels(info, label_width),
        measurable_values(info),
        measurable_art(art, art_width),
        0 <= j < rows.len(),
    ensures
        rows.len() == larger(art.len(), info.len()) + 2,
        visible_width_spec(rows[j]) == side_by_side_row_width(
            art,
            info,
            label_width,
            art_width,
            content_width,
            j,
        ),
        (0 < j < rows.len() - 1 ==> side_row_fits(
            art,
            info,
            label_width,
            art_width,
            content_width,
            j - 1,
        )) <==> visible_width_spec(rows[j]) == content_width + 2,
{
    lemma_borders_aligned(frame, content_width);
    if 0 < j < rows.len() - 1 {
        lemma_side_row_width(
            frame,
            art,
            info,
            dressed,
            label_width,
            art_width,
            content_width,
            j - 1,
        );
    }
}

/// Every row of a stacked box whose content fits has the width of the box:
/// the content width and the two border columns. This holds of the borders,
/// of the blank row, of every art line that is no wider than the content and
/// of every pair that reaches the right border at most. A row whose content
/// does not fit is wider than the box. All of this is stated for measurable
/// labels, values and art.
pub proof fn lemma_stacked_aligned(
    rows: Seq<Seq<char>>,
    frame: Frame,
    dressed: Seq<(String, String)>,
    art: Seq<Seq<char>>,
    info: Seq<(String, String)>,
    label_width: nat,
    content_width: nat,
    j: int,
)
    requires
        is_stacked_output(rows, frame, dressed, art, info, label_width, content_width),
        measurable_labels(info, label_width),
        measurable_values(info),
        measurable_lines(art),
        0 <= j < rows.len(),
    ensures
        rows.len() == art.len() + (if art.len() > 0 { 1nat } else { 0nat }) + info.len() + 2,
        visible_width_spec(rows[j]) == stacked_row_width(
            art,
            info,
            label_width,
            content_width,
            j,
        ),
        stacked_row_fits(art, info, label_width, content_width, j) <==> visible_width_spec(
            rows[j],
        ) == content_width + 2,
{
    let vertical = frame.vertical@;
    lemma_borders_aligned(frame, content_width);
    lemma_separator_row_width(frame, content_width);
    let blank = separator_rows(art, content_width, vertical);
    let first_pair = 1 + art.len() + blank.len();
    if 1 <= j <= art.len() {
        lemma_art_row_width(frame, art[j - 1], content_width);
    } else if first_pair <= j < first_pair + info.len() {
        lemma_pair_row_width(frame, info, dressed, label_width, content_width, j - first_pair);
    }
}

/// Where the plan says side by side and there is at least one pair, the
/// content of every row fits in the box.
pub proof fn lemma_planned_rows_fit(
    art: Seq<Seq<char>>,
    info: Seq<(String, String)>,
    terminal_width: nat,
    i: int,
)
    requires
        mode_for(art, info, terminal_width) == LayoutMode::SideBySide,
        info.len() > 0,
        0 <= i,
    ensures
        side_row_fits(
            art,
            info,
            label_width(info),
            widest(art),
            minus(terminal_width, BORDER_COLUMNS as nat),
            i,
        ),
{
    if i < info.len() {
        lemma_column_widths(info, i);
    }
    if i < art.len() {
        lemma_widest(art, i);
    }
}

/// Whether every label is measurable.
pub open spec fn measurable_names(info: Seq<(String, String)>) -> bool {
    forall|i: int| 0 <= i < info.len() ==> is_measurable((#[trigger] info[i]).0@)
}

/// Whether every line of the art is measurable.
pub open spec fn measurable_lines(art: Seq<Seq<char>>) -> bool {
    forall|i: int| 0 <= i < art.len() ==> is_measurable(#[trigger] art[i])
}

/// No label is wider than the label column that the plan measures, and no
/// art line wider than its art column.
pub proof fn lemma_planned_columns(art: Seq<Seq<char>>, info: Seq<(String, String)>)
    requires
        measurable_names(info),
        measurable_lines(art),
    ensures
        measurable_labels(info, label_width(info)),
        measurable_art(art, widest(art)),
{
    assert forall|i: int| 0 <= i < info.len() implies is_measurable((#[trigger] info[i]).0@)
        && visible_width_spec(info[i].0@) <= label_width(info) by {
        lemma_column_widths(info, i);
    }
    assert forall|i: int| 0 <= i < art.len() implies is_measurable(#[trigger] art[i])
        && visible_width_spec(art[i]) <= widest(art) by {
        lemma_widest(art, i);
    }
}

/// The whole box in side-by-side mode is aligned: where the plan says side by
/// side and there is at least one pair, every row of the box is as wide as
/// the content width and the two border columns, for measurable labels,
/// values and logo lines.
pub proof fn lemma_summary_aligned(
    rows: Seq<Seq<char>>,
    frame: Frame,
    dressed: Seq<(String, String)>,
    logo: Seq<Seq<char>>,
    info: Seq<(String, String)>,
    terminal_width: nat,
    terminal_height: nat,
    j: int,
)
    requires
        is_summary_output(rows, frame, dressed, logo, info, terminal_width, terminal_height),
        mode_for(displayed_art(logo, terminal_height), info, terminal_width)
            == LayoutMode::SideBySide,
        info.len() > 0,
        measurable_names(info),
        measurable_values(info),
        measurable_lines(logo),
        0 <= j < rows.len(),
    ensures
        visible_width_spec(rows[j]) == minus(terminal_width, BORDER_COLUMNS as nat) + 2,
{
    let art = displayed_art(logo, terminal_height);
    lemma_planned_columns(art, info);
    if 0 < j < rows.len() - 1 {
        lemma_planned_rows_fit(art, info, terminal_width, j - 1);
    }
    lemma_side_by_side_aligned(
        rows,
        frame,
        dressed,
        art,
        info,
        label_width(info),
        widest(art),
        minus(terminal_width, BORDER_COLUMNS as nat),
        j,
    );
}

} // verus!
