use crate::layout::BORDER_COLUMNS;
use crate::layout::LayoutMode;
use crate::layout::LayoutPlan;
use crate::layout::minus;
use crate::metrics::larger;
use crate::metrics::visible_width;
use crate::metrics::visible_width_spec;
use crate::painting::is_painting_of;
use crate::painting::paint;
use crate::text::blanks;
use crate::text::repeat;
use crate::text::repeated;
use crate::text::spaces;
use crate::text::texts;
use vstd::prelude::*;
use vstd::string::StringExecFns;

verus! {

/// The least number of columns between the information and the art in a
/// side-by-side row.
pub const MIN_GAP: usize = 3;

/// The six glyphs of the box, each as it is written to the terminal.
pub struct Frame {
    /// The corner that opens the top border.
    pub top_left: String,
    /// The corner that closes the top border.
    pub top_right: String,
    /// The corner that opens the bottom border.
    pub bottom_left: String,
    /// The corner that closes the bottom border.
    pub bottom_right: String,
    /// The piece that the horizontal rules are made of.
    pub horizontal: String,
    /// The border at either end of a row.
    pub vertical: String,
}

/// Whether the six pieces are the box-drawing glyphs, painted.
pub open spec fn is_frame(frame: Frame) -> bool {
    &&& is_painting_of(frame.top_left@, seq!['\u{250c}'])
    &&& is_painting_of(frame.top_right@, seq!['\u{2510}'])
    &&& is_painting_of(frame.bottom_left@, seq!['\u{2514}'])
    &&& is_painting_of(frame.bottom_right@, seq!['\u{2518}'])
    &&& is_painting_of(frame.horizontal@, seq!['\u{2500}'])
    &&& is_painting_of(frame.vertical@, seq!['\u{2502}'])
}

/// A label filled up with spaces on the right to the given display width; a
/// label that is wider already stays as it is.
pub open spec fn padded(label: Seq<char>, width: nat) -> Seq<char> {
    label + blanks(minus(width, visible_width_spec(label)))
}

/// Whether `dressed` holds the pairs of `info` made ready for a row: each
/// label padded to the label column and painted, each value as it is.
pub open spec fn is_dressing_of(
    dressed: Seq<(String, String)>,
    info: Seq<(String, String)>,
    label_width: nat,
) -> bool {
    &&& dressed.len() == info.len()
    &&& forall|i: int|
        0 <= i < info.len() ==> {
            &&& is_painting_of((#[trigger] dressed[i]).0@, padded(info[i].0@, label_width))
            &&& dressed[i].1@ == info[i].1@
        }
}

/// The left half of a row that shows a pair: border, space, label, space,
/// value.
pub open spec fn pair_left(vertical: Seq<char>, label: Seq<char>, value: Seq<char>) -> Seq<char> {
    vertical + seq![' '] + label + seq![' '] + value
}

/// The left half of a row without a pair: the border and blank space two
/// columns wider than the label column.
pub open spec fn blank_left(vertical: Seq<char>, label_width: nat) -> Seq<char> {
    vertical + blanks(label_width + 2)
}

/// The columns between the left half and the art: what is left of the content
/// width beside both, and never fewer than the least gap.
pub open spec fn gap_width(left: Seq<char>, art_width: nat, content_width: nat) -> nat {
    larger(minus(content_width, visible_width_spec(left) + art_width), MIN_GAP as nat)
}

/// A row closed on the right: what stands in it so far, which begins with the
/// left border, is filled up with spaces until the content width is reached
/// behind that border, and the right border follows.
pub open spec fn closed_row(body: Seq<char>, content_width: nat, vertical: Seq<char>) -> Seq<
    char,
> {
    body + blanks(minus(content_width + 1, visible_width_spec(body))) + vertical
}

/// The left half of the side-by-side row with the given index.
pub open spec fn side_left(
    vertical: Seq<char>,
    dressed: Seq<(String, String)>,
    label_width: nat,
    i: int,
) -> Seq<char> {
    if 0 <= i < dressed.len() {
        pair_left(vertical, dressed[i].0@, dressed[i].1@)
    } else {
        blank_left(vertical, label_width)
    }
}

/// The art of the side-by-side row with the given index: the art line, or
/// blank space of the art column's width below the art.
pub open spec fn side_art(art: Seq<Seq<char>>, art_width: nat, i: int) -> Seq<char> {
    if 0 <= i < art.len() {
        art[i]
    } else {
        blanks(art_width)
    }
}

/// The side-by-side row with the given index.
pub open spec fn side_row(
    vertical: Seq<char>,
    art: Seq<Seq<char>>,
    dressed: Seq<(String, String)>,
    label_width: nat,
    art_width: nat,
    content_width: nat,
    i: int,
) -> Seq<char> {
    let left = side_left(vertical, dressed, label_width, i);
    closed_row(
        left + blanks(gap_width(left, art_width, content_width)) + side_art(art, art_width, i),
        content_width,
        vertical,
    )
}

/// A border row: a corner, the horizontal rule over the content width, a
/// corner.
pub open spec fn border_row(
    left_corner: Seq<char>,
    horizontal: Seq<char>,
    right_corner: Seq<char>,
    content_width: nat,
) -> Seq<char> {
    left_corner + repeated(horizontal, content_width) + right_corner
}

/// The top border of the box.
pub open spec fn top_row(frame: Frame, content_width: nat) -> Seq<char> {
    border_row(frame.top_left@, frame.horizontal@, frame.top_right@, content_width)
}

/// The bottom border of the box.
pub open spec fn bottom_row(frame: Frame, content_width: nat) -> Seq<char> {
    border_row(frame.bottom_left@, frame.horizontal@, frame.bottom_right@, content_width)
}

/// The rows of the box in side-by-side mode: the top border, one row for each
/// index up to the longer of art and pairs, the bottom border.
pub open spec fn side_by_side_spec(
    frame: Frame,
    art: Seq<Seq<char>>,
    dressed: Seq<(String, String)>,
    label_width: nat,
    art_width: nat,
    content_width: nat,
) -> Seq<Seq<char>> {
    seq![top_row(frame, content_width)] + Seq::new(
        larger(art.len(), dressed.len()),
        |i: int| side_row(frame.vertical@, art, dressed, label_width, art_width, content_width, i),
    ) + seq![bottom_row(frame, content_width)]
}

/// A row that shows one art line centred in the content width: half of the
/// free columns stand on its left, rounded down, the others on its right.
pub open spec fn art_row(line: Seq<char>, content_width: nat, vertical: Seq<char>) -> Seq<char> {
    let width = visible_width_spec(line);
    let left = minus(content_width, width) / 2;
    let right = minus(content_width, left + width);
    vertical + blanks(left) + line + blanks(right) + vertical
}

/// The blank row between the art and the pairs.
pub open spec fn separator_row(content_width: nat, vertical: Seq<char>) -> Seq<char> {
    vertical + blanks(content_width) + vertical
}

/// A row that shows one pair over the whole content width.
pub open spec fn pair_row(
    vertical: Seq<char>,
    label: Seq<char>,
    value: Seq<char>,
    content_width: nat,
) -> Seq<char> {
    closed_row(pair_left(vertical, label, value), content_width, vertical)
}

/// The separator as a list: one row below art, none where there is no art.
pub open spec fn separator_rows(
    art: Seq<Seq<char>>,
    content_width: nat,
    vertical: Seq<char>,
) -> Seq<Seq<char>> {
    if art.len() > 0 {
        seq![separator_row(content_width, vertical)]
    } else {
        Seq::<Seq<char>>::empty()
    }
}

/// The rows of the box in stacked mode: the top border, the art lines
/// centred, a blank row if there is art, the pairs, the bottom border.
pub open spec fn stacked_spec(
    frame: Frame,
    art: Seq<Seq<char>>,
    dressed: Seq<(String, String)>,
    content_width: nat,
) -> Seq<Seq<char>> {
    let vertical = frame.vertical@;
    seq![top_row(frame, content_width)] + Seq::new(
        art.len(),
        |i: int| art_row(art[i], content_width, vertical),
    ) + separator_rows(art, content_width, vertical) + Seq::new(
        dressed.len(),
        |i: int| pair_row(vertical, dressed[i].0@, dressed[i].1@, content_width),
    ) + seq![bottom_row(frame, content_width)]
}

/// Whether `rows` is the box in side-by-side mode for the given content, drawn
/// with the painted glyphs `frame` and the dressed pairs `dressed`.
pub open spec fn is_side_by_side_output(
    rows: Seq<Seq<char>>,
    frame: Frame,
    dressed: Seq<(String, String)>,
    art: Seq<Seq<char>>,
    info: Seq<(String, String)>,
    label_width: nat,
    art_width: nat,
    content_width: nat,
) -> bool {
    &&& is_frame(frame)
    &&& is_dressing_of(dressed, info, label_width)
    &&& rows == side_by_side_spec(frame, art, dressed, label_width, art_width, content_width)
}

/// Whether `rows` is the box in stacked mode for the given content, drawn
/// with the painted glyphs `frame` and the dressed pairs `dressed`.
pub open spec fn is_stacked_output(
    rows: Seq<Seq<char>>,
    frame: Frame,
    dressed: Seq<(String, String)>,
    art: Seq<Seq<char>>,
    info: Seq<(String, String)>,
    label_width: nat,
    content_width: nat,
) -> bool {
    &&& is_frame(frame)
    &&& is_dressing_of(dressed, info, label_width)
    &&& rows == stacked_spec(frame, art, dressed, content_width)
}

/// Whether `rows` is the box that the plan asks for, drawn with the painted
/// glyphs `frame` and the dressed pairs `dressed`.
pub open spec fn is_plan_output(
    rows: Seq<Seq<char>>,
    frame: Frame,
    dressed: Seq<(String, String)>,
    art: Seq<Seq<char>>,
    info: Seq<(String, String)>,
    plan: LayoutPlan,
) -> bool {
    match plan.mode {
        LayoutMode::SideBySide => is_side_by_side_output(
            rows,
            frame,
            dressed,
            art,
            info,
            plan.label_column_width as nat,
            plan.art_column_width as nat,
            plan.content_width as nat,
        ),
        LayoutMode::Stacked => is_stacked_output(
            rows,
            frame,
            dressed,
            art,
            info,
            plan.label_column_width as nat,
            plan.content_width as nat,
        ),
    }
}

/// The glyphs of the box, painted as the terminal will show them.
pub fn paint_frame() -> (frame: Frame)
    ensures
        is_frame(frame),
{
    proof {
        reveal_strlit("\u{250c}");
        reveal_strlit("\u{2510}");
        reveal_strlit("\u{2514}");
        reveal_strlit("\u{2518}");
        reveal_strlit("\u{2500}");
        reveal_strlit("\u{2502}");
    }
    assert("\u{250c}"@ =~= seq!['\u{250c}']);
    assert("\u{2510}"@ =~= seq!['\u{2510}']);
    assert("\u{2514}"@ =~= seq!['\u{2514}']);
    assert("\u{2518}"@ =~= seq!['\u{2518}']);
    assert("\u{2500}"@ =~= seq!['\u{2500}']);
    assert("\u{2502}"@ =~= seq!['\u{2502}']);
    Frame {
        top_left: paint("\u{250c}"),
        top_right: paint("\u{2510}"),
        bottom_left: paint("\u{2514}"),
        bottom_right: paint("\u{2518}"),
        horizontal: paint("\u{2500}"),
        vertical: paint("\u{2502}"),
    }
}

/// Fills a label up with spaces on the right to the given display width.
pub fn pad_right(label: &str, width: usize) -> (filled: String)
    ensures
        filled@ == padded(label@, width as nat),
{
    let missing = width.saturating_sub(visible_width(label));
    let mut filled = label.to_owned();
    let fill = spaces(missing);
    filled.append(fill.as_str());
    filled
}

/// Makes the pairs ready for their rows: each label is padded to the label
/// column and painted, each value is kept.
pub fn dress_pairs(info: &[(String, String)], label_width: usize) -> (dressed: Vec<
    (String, String),
>)
    ensures
        is_dressing_of(dressed@, info@, label_width as nat),
{
    let mut dressed: Vec<(String, String)> = Vec::new();
    let mut i: usize = 0;
    while i < info.len()
        invariant
            i <= info.len(),
            is_dressing_of(dressed@, info@.take(i as int), label_width as nat),
        decreases info.len() - i,
    {
        let filled = pad_right(info[i].0.as_str(), label_width);
        let label = paint(filled.as_str());
        let value = info[i].1.clone();
        dressed.push((label, value));
        i += 1;
    }
    dressed
}

/// Builds a border row from its three glyphs.
pub fn make_border_row(
    left_corner: &str,
    horizontal: &str,
    right_corner: &str,
    content_width: usize,
) -> (row: String)
    ensures
        row@ == border_row(left_corner@, horizontal@, right_corner@, content_width as nat),
{
    let mut row = left_corner.to_owned();
    let rule = repeat(horizontal, content_width);
    row.append(rule.as_str());
    row.append(right_corner);
    row
}

/// Closes a row: fills it up to the content width behind the left border and
/// adds the right border.
pub fn close_row(body: String, content_width: usize, vertical: &str) -> (row: String)
    ensures
        row@ == closed_row(body@, content_width as nat, vertical@),
{
    let mut row = body;
    let width = visible_width(row.as_str());
    if width <= content_width {
        let fill = spaces(content_width - width);
        row.append(fill.as_str());
        row.push(' ');
    }
    row.append(vertical);
    row
}

/// Builds the left half of a row that shows a pair.
pub fn make_pair_left(vertical: &str, label: &str, value: &str) -> (left: String)
    ensures
        left@ == pair_left(vertical@, label@, value@),
{
    let mut left = vertical.to_owned();
    left.push(' ');
    left.append(label);
    left.push(' ');
    left.append(value);
    left
}

/// Builds the left half of a row without a pair.
pub fn make_blank_left(vertical: &str, label_width: usize) -> (left: String)
    ensures
        left@ == blank_left(vertical@, label_width as nat),
{
    let mut left = vertical.to_owned();
    let fill = spaces(label_width);
    left.append(fill.as_str());
    left.push(' ');
    left.push(' ');
    left
}

/// The rows of the box in side-by-side mode, from painted glyphs and dressed
/// pairs. Row `i` shows pair `i` on the left, or blank space where the pairs
/// have ended, and art line `i` on the right, or blank space where the art
/// has ended. The gap between them takes what the content width leaves and is
/// never narrower than three columns, so a row whose content does not fit
/// runs over the right border instead of closing up.
pub fn side_by_side_rows(
    frame: &Frame,
    ascii_art: &[String],
    dressed: &[(String, String)],
    label_width: usize,
    art_width: usize,
    content_width: usize,
) -> (rows: Vec<String>)
    ensures
        texts(rows@) == side_by_side_spec(
            *frame,
            texts(ascii_art@),
            dressed@,
            label_width as nat,
            art_width as nat,
            content_width as nat,
        ),
{
    let vertical = frame.vertical.as_str();
    let count = if ascii_art.len() >= dressed.len() {
        ascii_art.len()
    } else {
        dressed.len()
    };
    let ghost art = texts(ascii_art@);
    let ghost middle = Seq::new(
        count as nat,
        |i: int|
            side_row(
                vertical@,
                art,
                dressed@,
                label_width as nat,
                art_width as nat,
                content_width as nat,
                i,
            ),
    );
    let ghost top = top_row(*frame, content_width as nat);
    let mut rows: Vec<String> = Vec::new();
    rows.push(
        make_border_row(
            frame.top_left.as_str(),
            frame.horizontal.as_str(),
            frame.top_right.as_str(),
            content_width,
        ),
    );
    let mut i: usize = 0;
    while i < count
        invariant
            i <= count,
            count as nat == larger(ascii_art@.len(), dressed@.len()),
            vertical@ == frame.vertical@,
            art == texts(ascii_art@),
            middle == Seq::new(
                count as nat,
                |i: int|
                    side_row(
                        vertical@,
                        art,
                        dressed@,
                        label_width as nat,
                        art_width as nat,
                        content_width as nat,
                        i,
                    ),
            ),
            texts(rows@) == seq![top] + middle.take(i as int),
        decreases count - i,
    {
        let ghost before = texts(rows@);
        let mut body = if i < dressed.len() {
            make_pair_left(vertical, dressed[i].0.as_str(), dressed[i].1.as_str())
        } else {
            make_blank_left(vertical, label_width)
        };
        let taken = visible_width(body.as_str()).saturating_add(art_width);
        let natural = content_width.saturating_sub(taken);
        let gap = if natural > MIN_GAP {
            natural
        } else {
            MIN_GAP
        };
        let fill = spaces(gap);
        body.append(fill.as_str());
        if i < ascii_art.len() {
            body.append(ascii_art[i].as_str());
        } else {
            let blank = spaces(art_width);
            body.append(blank.as_str());
        }
        let row = close_row(body, content_width, vertical);
        rows.push(row);
        assert(texts(rows@) =~= before.push(middle[i as int]));
        i += 1;
    }
    assert(middle.take(count as int) =~= middle);
    let bottom = make_border_row(
        frame.bottom_left.as_str(),
        frame.horizontal.as_str(),
        frame.bottom_right.as_str(),
        content_width,
    );
    rows.push(bottom);
    rows
}

/// The rows of the box in stacked mode, from painted glyphs and dressed
/// pairs: the art lines centred, one blank row below them if there is art,
/// then one row for each pair.
pub fn stacked_rows(
    frame: &Frame,
    ascii_art: &[String],
    dressed: &[(String, String)],
    content_width: usize,
) -> (rows: Vec<String>)
    ensures
        texts(rows@) == stacked_spec(*frame, texts(ascii_art@), dressed@, content_width as nat),
{
    let vertical = frame.vertical.as_str();
    let ghost art = texts(ascii_art@);
    let ghost top = top_row(*frame, content_width as nat);
    let ghost art_rows = Seq::new(
        art.len(),
        |i: int| art_row(art[i], content_width as nat, vertical@),
    );
    let ghost pair_rows = Seq::new(
        dressed@.len(),
        |i: int| pair_row(vertical@, dressed@[i].0@, dressed@[i].1@, content_width as nat),
    );
    let mut rows: Vec<String> = Vec::new();
    rows.push(
        make_border_row(
            frame.top_left.as_str(),
            frame.horizontal.as_str(),
            frame.top_right.as_str(),
            content_width,
        ),
    );
    let mut i: usize = 0;
    while i < ascii_art.len()
        invariant
            i <= ascii_art.len(),
            art == texts(ascii_art@),
            art_rows == Seq::new(
                art.len(),
                |i: int| art_row(art[i], content_width as nat, vertical@),
            ),
            texts(rows@) == seq![top] + art_rows.take(i as int),
        decreases ascii_art.len() - i,
    {
        let ghost before = texts(rows@);
        let line = ascii_art[i].as_str();
        let width = visible_width(line);
        let left = content_width.saturating_sub(width) / 2;
        let right = content_width.saturating_sub(left.saturating_add(width));
        let mut row = vertical.to_owned();
        let left_fill = spaces(left);
        row.append(left_fill.as_str());
        row.append(line);
        let right_fill = spaces(right);
        row.append(right_fill.as_str());
        row.append(vertical);
        rows.push(row);
        assert(texts(rows@) =~= before.push(art_rows[i as int]));
        i += 1;
    }
    assert(art_rows.take(art.len() as int) =~= art_rows);
    let ghost blank = separator_rows(art, content_width as nat, vertical@);
    if ascii_art.len() > 0 {
        let mut row = vertical.to_owned();
        let fill = spaces(content_width);
        row.append(fill.as_str());
        row.append(vertical);
        rows.push(row);
    }
    let ghost head = seq![top] + art_rows + blank;
    let mut k: usize = 0;
    while k < dressed.len()
        invariant
            k <= dressed.len(),
            pair_rows == Seq::new(
                dressed@.len(),
                |i: int| pair_row(vertical@, dressed@[i].0@, dressed@[i].1@, content_width as nat),
            ),
            texts(rows@) == head + pair_rows.take(k as int),
        decreases dressed.len() - k,
    {
        let ghost before = texts(rows@);
        let left = make_pair_left(vertical, dressed[k].0.as_str(), dressed[k].1.as_str());
        let row = close_row(left, content_width, vertical);
        rows.push(row);
        assert(texts(rows@) =~= before.push(pair_rows[k as int]));
        k += 1;
    }
    assert(pair_rows.take(dressed@.len() as int) =~= pair_rows);
    let bottom = make_border_row(
        frame.bottom_left.as_str(),
        frame.horizontal.as_str(),
        frame.bottom_right.as_str(),
        content_width,
    );
    rows.push(bottom);
    rows
}

/// Draws the box in side-by-side mode and returns its rows, top border
/// first. The glyphs of the box and the labels are painted; each label is
/// padded to `max_label_len` first. The content is as wide as the terminal
/// less the two border columns.
pub fn display_side_by_side(
    ascii_art: &[String],
    info: &[(String, String)],
    max_label_len: usize,
    art_width: usize,
    term_width: usize,
) -> (rows: Vec<String>)
    ensures
        exists|frame: Frame, dressed: Seq<(String, String)>| #[trigger]
            is_side_by_side_output(
                texts(rows@),
                frame,
                dressed,
                texts(ascii_art@),
                info@,
                max_label_len as nat,
                art_width as nat,
                minus(term_width as nat, BORDER_COLUMNS as nat),
            ),
{
    let frame = paint_frame();
    let dressed = dress_pairs(info, max_label_len);
    let content_width = term_width.saturating_sub(BORDER_COLUMNS);
    let rows = side_by_side_rows(
        &frame,
        ascii_art,
        dressed.as_slice(),
        max_label_len,
        art_width,
        content_width,
    );
    assert(is_side_by_side_output(
        texts(rows@),
        frame,
        dressed@,
        texts(ascii_art@),
        info@,
        max_label_len as nat,
        art_width as nat,
        minus(term_width as nat, BORDER_COLUMNS as nat),
    ));
    rows
}

/// Draws the box in stacked mode and returns its rows, top border first. The
/// glyphs of the box and the labels are painted; each label is padded to
/// `max_label_len` first. The content is as wide as the terminal less the two
/// border columns.
pub fn display_stacked(
    ascii_art: &[String],
    info: &[(String, String)],
    max_label_len: usize,
    term_width: usize,
) -> (rows: Vec<String>)
    ensures
        exists|frame: Frame, dressed: Seq<(String, String)>| #[trigger]
            is_stacked_output(
                texts(rows@),
                frame,
                dressed,
                texts(ascii_art@),
                info@,
                max_label_len as nat,
                minus(term_width as nat, BORDER_COLUMNS as nat),
            ),
{
    let frame = paint_frame();
    let dressed = dress_pairs(info, max_label_len);
    let content_width = term_width.saturating_sub(BORDER_COLUMNS);
    let rows = stacked_rows(&frame, ascii_art, dressed.as_slice(), content_width);
    assert(is_stacked_output(
        texts(rows@),
        frame,
        dressed@,
        texts(ascii_art@),
        info@,
        max_label_len as nat,
        minus(term_width as nat, BORDER_COLUMNS as nat),
    ));
    rows
}

/// Draws the box that the plan asks for and returns its rows, top border
/// first: in the plan's mode, with labels padded to its label column, art in
/// its art column, and content of its content width.
pub fn render_plan(ascii_art: &[String], info: &[(String, String)], plan: &LayoutPlan) -> (rows:
    Vec<String>)
    ensures
        exists|frame: Frame, dressed: Seq<(String, String)>| #[trigger]
            is_plan_output(texts(rows@), frame, dressed, texts(ascii_art@), info@, *plan),
{
    let frame = paint_frame();
    let dressed = dress_pairs(info, plan.label_column_width);
    let rows = match plan.mode {
        LayoutMode::SideBySide => side_by_side_rows(
            &frame,
            ascii_art,
            dressed.as_slice(),
            plan.label_column_width,
            plan.art_column_width,
            plan.content_width,
        ),
        LayoutMode::Stacked => stacked_rows(
            &frame,
            ascii_art,
            dressed.as_slice(),
            plan.content_width,
        ),
    };
    assert(is_plan_output(texts(rows@), frame, dressed@, texts(ascii_art@), info@, *plan));
    rows
}

} // verus!
