use crate::metrics::larger;
use crate::metrics::max_visible_width;
use crate::metrics::visible_width;
use crate::metrics::visible_width_spec;
use crate::metrics::widest;
use crate::text::texts;
use vstd::prelude::*;

verus! {

/// The two arrangements of art and information.
#[derive(Clone, Copy, Debug, PartialEq, Eq, Structural)]
pub enum LayoutMode {
    /// Information rows and art lines share the rows of the box.
    SideBySide,
    /// The art stands above the information rows.
    Stacked,
}

/// The geometry that the renderer works from.
#[derive(Clone, Copy, Debug, PartialEq, Eq, Structural)]
pub struct LayoutPlan {
    /// The arrangement chosen.
    pub mode: LayoutMode,
    /// The width of the widest label.
    pub label_column_width: usize,
    /// The width of the widest art line.
    pub art_column_width: usize,
    /// The width of the box between its two border columns.
    pub content_width: usize,
}

/// The columns between the label column and the value in an information line.
pub const LABEL_GAP: usize = 2;

/// The columns between the information and the art when they stand side by
/// side.
pub const COLUMN_GAP: usize = 1;

/// The columns of the terminal that the side-by-side test keeps free: two for
/// the border and two for safety.
pub const RESERVED_COLUMNS: usize = 4;

/// The columns that the two border glyphs take.
pub const BORDER_COLUMNS: usize = 2;

/// `a - b`, or 0 where `b` is larger.
pub open spec fn minus(a: nat, b: nat) -> nat {
    if a >= b {
        (a - b) as nat
    } else {
        0
    }
}

/// The width of the widest label, 0 where there is no pair.
pub open spec fn label_width(info: Seq<(String, String)>) -> nat
    decreases info.len(),
{
    if info.len() == 0 {
        0
    } else {
        larger(label_width(info.drop_last()), visible_width_spec(info.last().0@))
    }
}

/// The width of the widest value, 0 where there is no pair.
pub open spec fn value_width(info: Seq<(String, String)>) -> nat
    decreases info.len(),
{
    if info.len() == 0 {
        0
    } else {
        larger(value_width(info.drop_last()), visible_width_spec(info.last().1@))
    }
}

/// The width of the widest information line: the label column, the gap and
/// the widest value; 0 where there is no pair.
pub open spec fn info_line_width(info: Seq<(String, String)>) -> nat {
    if info.len() == 0 {
        0
    } else {
        label_width(info) + LABEL_GAP as nat + value_width(info)
    }
}

/// The columns that art and information need side by side.
pub open spec fn total_width_needed(art: Seq<Seq<char>>, info: Seq<(String, String)>) -> nat {
    widest(art) + COLUMN_GAP as nat + info_line_width(info)
}

/// The arrangement for content that needs `needed` columns side by side: side
/// by side where that leaves the reserved columns of the terminal free, else
/// stacked.
pub open spec fn mode_for_width(needed: nat, terminal_width: nat) -> LayoutMode {
    if needed <= minus(terminal_width, RESERVED_COLUMNS as nat) {
        LayoutMode::SideBySide
    } else {
        LayoutMode::Stacked
    }
}

/// The arrangement for the given content and terminal width.
pub open spec fn mode_for(
    art: Seq<Seq<char>>,
    info: Seq<(String, String)>,
    terminal_width: nat,
) -> LayoutMode {
    mode_for_width(total_width_needed(art, info), terminal_width)
}

/// Whether `plan` is the plan for the given content and terminal width.
pub open spec fn is_plan_for(
    plan: LayoutPlan,
    art: Seq<Seq<char>>,
    info: Seq<(String, String)>,
    terminal_width: nat,
) -> bool {
    &&& plan.mode == mode_for(art, info, terminal_width)
    &&& plan.label_column_width as nat == label_width(info)
    &&& plan.art_column_width as nat == widest(art)
    &&& plan.content_width as nat == minus(terminal_width, BORDER_COLUMNS as nat)
}

/// No label is wider than the label column, and no value wider than the
/// widest value.
pub proof fn lemma_column_widths(info: Seq<(String, String)>, i: int)
    requires
        0 <= i < info.len(),
    ensures
        visible_width_spec(info[i].0@) <= label_width(info),
        visible_width_spec(info[i].1@) <= value_width(info),
    decreases info.len(),
{
    if i < info.len() - 1 {
        lemma_column_widths(info.drop_last(), i);
    }
}

/// The content and the terminal width determine the plan: two plans for the
/// same input are the same plan.
pub proof fn lemma_plan_is_determined(
    first: LayoutPlan,
    second: LayoutPlan,
    art: Seq<Seq<char>>,
    info: Seq<(String, String)>,
    terminal_width: nat,
)
    requires
        is_plan_for(first, art, info, terminal_width),
        is_plan_for(second, art, info, terminal_width),
    ensures
        first == second,
{
}

/// At the boundary of the mode selection: content that needs exactly the
/// terminal width less the reserved columns is laid out side by side, and
/// content that needs one column more is stacked.
pub proof fn lemma_mode_boundary(
    art: Seq<Seq<char>>,
    info: Seq<(String, String)>,
    terminal_width: nat,
)
    ensures
        total_width_needed(art, info) == minus(terminal_width, RESERVED_COLUMNS as nat)
            ==> mode_for(art, info, terminal_width) == LayoutMode::SideBySide,
        total_width_needed(art, info) == minus(terminal_width, RESERVED_COLUMNS as nat) + 1
            ==> mode_for(art, info, terminal_width) == LayoutMode::Stacked,
{
}

/// The width of the widest label, 0 where there is no pair.
pub fn max_label_width(info: &[(String, String)]) -> (w: usize)
    ensures
        w as nat == label_width(info@),
{
    let mut w: usize = 0;
    let mut i: usize = 0;
    while i < info.len()
        invariant
            i <= info.len(),
            w as nat == label_width(info@.take(i as int)),
        decreases info.len() - i,
    {
        let width = visible_width(info[i].0.as_str());
        assert(info@.take(i + 1).drop_last() =~= info@.take(i as int));
        if width > w {
            w = width;
        }
        i += 1;
    }
    assert(info@.take(info@.len() as int) =~= info@);
    w
}

/// The width of the widest value, 0 where there is no pair.
pub fn max_value_width(info: &[(String, String)]) -> (w: usize)
    ensures
        w as nat == value_width(info@),
{
    let mut w: usize = 0;
    let mut i: usize = 0;
    while i < info.len()
        invariant
            i <= info.len(),
            w as nat == value_width(info@.take(i as int)),
        decreases info.len() - i,
    {
        let width = visible_width(info[i].1.as_str());
        assert(info@.take(i + 1).drop_last() =~= info@.take(i as int));
        if width > w {
            w = width;
        }
        i += 1;
    }
    assert(info@.take(info@.len() as int) =~= info@);
    w
}

/// The width of the widest information line from the widths of its columns:
/// label column, gap and value column, or 0 where there is no pair.
pub open spec fn info_line_of(label_width: nat, value_width: nat, has_pairs: bool) -> nat {
    if has_pairs {
        label_width + LABEL_GAP as nat + value_width
    } else {
        0
    }
}

/// The plan for content whose columns have been measured: the widest label,
/// the widest value, the widest art line, and whether there is a pair at all.
pub fn plan_from_widths(
    label_column_width: usize,
    value_column_width: usize,
    art_column_width: usize,
    has_pairs: bool,
    terminal_width: usize,
) -> (plan: LayoutPlan)
    ensures
        plan.mode == mode_for_width(
            art_column_width as nat + COLUMN_GAP as nat + info_line_of(
                label_column_width as nat,
                value_column_width as nat,
                has_pairs,
            ),
            terminal_width as nat,
        ),
        plan.label_column_width == label_column_width,
        plan.art_column_width == art_column_width,
        plan.content_width as nat == minus(terminal_width as nat, BORDER_COLUMNS as nat),
{
    let info_line: u128 = if has_pairs {
        label_column_width as u128 + LABEL_GAP as u128 + value_column_width as u128
    } else {
        0
    };
    let needed: u128 = art_column_width as u128 + COLUMN_GAP as u128 + info_line;
    let budget = terminal_width.saturating_sub(RESERVED_COLUMNS);
    let mode = if needed <= budget as u128 {
        LayoutMode::SideBySide
    } else {
        LayoutMode::Stacked
    };
    LayoutPlan {
        mode,
        label_column_width,
        art_column_width,
        content_width: terminal_width.saturating_sub(BORDER_COLUMNS),
    }
}

/// Plans the layout: measures the label column and the art column, and
/// chooses side by side where art, gap and the widest information line leave
/// four columns of the terminal free, else stacked. The content width is the
/// terminal width less the two border columns. Every input has a plan.
pub fn plan_layout(
    ascii_art: &[String],
    info: &[(String, String)],
    terminal_width: usize,
) -> (plan: LayoutPlan)
    ensures
        is_plan_for(plan, texts(ascii_art@), info@, terminal_width as nat),
{
    let label_column_width = max_label_width(info);
    let value_column_width = max_value_width(info);
    let art_column_width = max_visible_width(ascii_art);
    plan_from_widths(
        label_column_width,
        value_column_width,
        art_column_width,
        info.len() > 0,
        terminal_width,
    )
}

} // verus!
