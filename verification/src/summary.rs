use crate::art::format_ascii_art_for_display;
use crate::layout::BORDER_COLUMNS;
use crate::layout::label_width;
use crate::layout::LayoutMode;
use crate::layout::minus;
use crate::layout::mode_for;
use crate::layout::plan_layout;
use crate::metrics::widest;
use crate::render::Frame;
use crate::render::is_plan_output;
use crate::render::is_side_by_side_output;
use crate::render::is_stacked_output;
use crate::render::render_plan;
use crate::text::split_lines;
use crate::text::texts;
use vstd::prelude::*;

verus! {

/// The rows of the terminal that are kept free of art: the two borders and two
/// more.
pub const RESERVED_ROWS: usize = 4;

/// The terminal size that is assumed where the real one cannot be found.
pub const FALLBACK_SIZE: (usize, usize) = (80, 24);

/// The art fitted to a height: the art itself where it has at most
/// `max_height` lines, else its first `max_height` lines.
pub open spec fn fitted_art(art: Seq<Seq<char>>, max_height: nat) -> Seq<Seq<char>> {
    if art.len() <= max_height {
        art
    } else {
        art.take(max_height as int)
    }
}

/// The art as the box shows it: fitted to the height of the terminal less the
/// reserved rows.
pub open spec fn displayed_art(logo: Seq<Seq<char>>, terminal_height: nat) -> Seq<Seq<char>> {
    fitted_art(logo, minus(terminal_height, RESERVED_ROWS as nat))
}

/// Whether `rows` is the box for the given logo, pairs and terminal size,
/// drawn with the painted glyphs `frame` and the dressed pairs `dressed`: side
/// by side where the plan says so, else stacked.
pub open spec fn is_summary_output(
    rows: Seq<Seq<char>>,
    frame: Frame,
    dressed: Seq<(String, String)>,
    logo: Seq<Seq<char>>,
    info: Seq<(String, String)>,
    terminal_width: nat,
    terminal_height: nat,
) -> bool {
    let art = displayed_art(logo, terminal_height);
    if mode_for(art, info, terminal_width) == LayoutMode::SideBySide {
        is_side_by_side_output(
            rows,
            frame,
            dressed,
            art,
            info,
            label_width(info),
            widest(art),
            minus(terminal_width, BORDER_COLUMNS as nat),
        )
    } else {
        is_stacked_output(
            rows,
            frame,
            dressed,
            art,
            info,
            label_width(info),
            minus(terminal_width, BORDER_COLUMNS as nat),
        )
    }
}

/// The size of the terminal: what the probe found, or 80 columns and 24 rows
/// where it found nothing.
pub fn get_terminal_size(probe: Option<(usize, usize)>) -> (size: (usize, usize))
    ensures
        size == (match probe {
            Some(found) => found,
            None => FALLBACK_SIZE,
        }),
{
    match probe {
        Some(found) => found,
        None => FALLBACK_SIZE,
    }
}

/// The logo that is shown where none can be read.
pub fn default_logo() -> (logo: Vec<String>)
    ensures
        texts(logo@) == seq!["  ___"@, " (o o)"@, "(  V  )"@, "--m-m-"@],
{
    let mut logo: Vec<String> = Vec::new();
    logo.push("  ___".to_owned());
    logo.push(" (o o)".to_owned());
    logo.push("(  V  )".to_owned());
    logo.push("--m-m-".to_owned());
    logo
}

/// The art that a file holds, line by line; none where the file could not be
/// read.
pub fn read_ascii_art(content: Option<&str>) -> (art: Option<Vec<String>>)
    ensures
        (match art {
            Some(found) => content is Some && texts(found@) == crate::text::lines(content->0@),
            None => content is None,
        }),
{
    match content {
        Some(text) => Some(split_lines(text)),
        None => None,
    }
}

/// The lines of the logo: those of the text that was read, or the default
/// logo where nothing could be read.
pub fn logo_lines(content: Option<&str>) -> (logo: Vec<String>)
    ensures
        texts(logo@) == (match content {
            Some(text) => crate::text::lines(text@),
            None => seq!["  ___"@, " (o o)"@, "(  V  )"@, "--m-m-"@],
        }),
{
    match read_ascii_art(content) {
        Some(found) => found,
        None => default_logo(),
    }
}

/// Lays out and draws the whole box for a logo, the information pairs and the
/// size of the terminal, and returns its rows from top to bottom. The logo is
/// fitted to the height less four rows; the plan then decides between side by
/// side and stacked.
pub fn render_system_info(
    logo: &[String],
    info: &[(String, String)],
    term_width: usize,
    term_height: usize,
) -> (rows: Vec<String>)
    ensures
        exists|frame: Frame, dressed: Seq<(String, String)>| #[trigger]
            is_summary_output(
                texts(rows@),
                frame,
                dressed,
                texts(logo@),
                info@,
                term_width as nat,
                term_height as nat,
            ),
{
    let max_art_height = term_height.saturating_sub(RESERVED_ROWS);
    let display_art = format_ascii_art_for_display(logo, max_art_height);
    let ghost art = displayed_art(texts(logo@), term_height as nat);
    assert(texts(display_art@) =~= art);
    let plan = plan_layout(display_art.as_slice(), info, term_width);
    let rows = render_plan(display_art.as_slice(), info, &plan);
    proof {
        let (frame, dressed) = choose|frame: Frame, dressed: Seq<(String, String)>| #[trigger]
            is_plan_output(texts(rows@), frame, dressed, art, info@, plan);
        assert(is_summary_output(
            texts(rows@),
            frame,
            dressed,
            texts(logo@),
            info@,
            term_width as nat,
            term_height as nat,
        ));
    }
    rows
}

} // verus!
