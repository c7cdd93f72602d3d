use fetchbox::metrics::visible_width;
use fetchbox::render::close_row;
use fetchbox::render::display_side_by_side;
use fetchbox::render::display_stacked;
use fetchbox::render::make_blank_left;
use fetchbox::render::make_border_row;
use fetchbox::render::make_pair_left;
use fetchbox::render::pad_right;
use fetchbox::render::render_plan;
use fetchbox::render::side_by_side_rows;
use fetchbox::render::stacked_rows;
use fetchbox::layout::LayoutMode;
use fetchbox::layout::LayoutPlan;
use fetchbox::render::Frame;
use fetchbox::summary::default_logo;
use fetchbox::summary::get_terminal_size;
use fetchbox::summary::logo_lines;
use fetchbox::summary::read_ascii_art;
use fetchbox::summary::render_system_info;

fn owned(lines: &[&str]) -> Vec<String> {
    lines.iter().map(|line| line.to_string()).collect()
}

fn pairs(items: &[(&str, &str)]) -> Vec<(String, String)> {
    items.iter().map(|(label, value)| (label.to_string(), value.to_string())).collect()
}

fn plain_frame() -> Frame {
    Frame {
        top_left: "┌".to_string(),
        top_right: "┐".to_string(),
        bottom_left: "└".to_string(),
        bottom_right: "┘".to_string(),
        horizontal: "─".to_string(),
        vertical: "│".to_string(),
    }
}

fn short_pairs() -> Vec<(String, String)> {
    pairs(&[("OS", "Linux"), ("Kernel", "6.1"), ("Uptime", "1 hours, 2 mins")])
}

fn square_art() -> Vec<String> {
    owned(&["##########", "##########", "##########", "##########"])
}

#[test]
fn wide_terminal_shows_pairs_beside_art() {
    colored::control::set_override(false);
    let rows = render_system_info(&square_art(), &short_pairs(), 80, 24);
    let art = "##########";
    let expected = vec![
        format!("┌{}┐", "─".repeat(78)),
        format!("│ OS     Linux{}{} │", " ".repeat(54), art),
        format!("│ Kernel 6.1{}{} │", " ".repeat(56), art),
        format!("│ Uptime 1 hours, 2 mins{}{} │", " ".repeat(44), art),
        format!("│{}{}{} │", " ".repeat(8), " ".repeat(59), art),
        format!("└{}┘", "─".repeat(78)),
    ];
    assert_eq!(rows, expected);
    assert_eq!(rows.len(), 6);
    for row in &rows {
        assert_eq!(visible_width(row), 80);
    }
}

#[test]
fn narrow_terminal_shows_art_above_pairs() {
    colored::control::set_override(false);
    let info = pairs(&[
        ("OS", "Ubuntu 22.04.3 LTS"),
        ("Kernel", "6.1"),
        ("Uptime", "1 hours, 2 mins"),
    ]);
    let rows = render_system_info(&square_art(), &info, 20, 24);
    let expected = vec![
        format!("┌{}┐", "─".repeat(18)),
        "│    ##########    │".to_string(),
        "│    ##########    │".to_string(),
        "│    ##########    │".to_string(),
        "│    ##########    │".to_string(),
        format!("│{}│", " ".repeat(18)),
        "│ OS     Ubuntu 22.04.3 LTS│".to_string(),
        "│ Kernel 6.1       │".to_string(),
        "│ Uptime 1 hours, 2 mins│".to_string(),
        format!("└{}┘", "─".repeat(18)),
    ];
    assert_eq!(rows, expected);
}

#[test]
fn art_without_pairs_is_centred_above_a_blank_row() {
    colored::control::set_override(false);
    let art = owned(&["###", "#####", "####"]);
    let rows = display_stacked(&art, &pairs(&[]), 0, 12);
    let expected = vec![
        format!("┌{}┐", "─".repeat(10)),
        "│   ###    │".to_string(),
        "│  #####   │".to_string(),
        "│   ####   │".to_string(),
        "│          │".to_string(),
        format!("└{}┘", "─".repeat(10)),
    ];
    assert_eq!(rows, expected);
}

#[test]
fn tall_art_is_cut_before_it_is_drawn() {
    colored::control::set_override(false);
    let art: Vec<String> = (0..12).map(|i| format!("art{:02}", i)).collect();
    let rows = render_system_info(&art, &short_pairs(), 80, 10);
    assert_eq!(rows.len(), 6 + 2);
    assert!(rows[6].contains("art05"));
    for row in &rows {
        assert!(!row.contains("art06"));
        assert_eq!(visible_width(row), 80);
    }
    let rows = render_system_info(&art, &short_pairs(), 80, 4);
    assert_eq!(rows.len(), 3 + 2);
    for row in &rows {
        assert!(!row.contains("art"));
    }
}

#[test]
fn stacked_rows_that_fit_are_as_wide_as_the_box() {
    colored::control::set_override(false);
    let info = pairs(&[("Host", "abcdefghij"), ("Uptime", "3 mins")]);
    let art = owned(&["##########", "\x1b[35m#####\x1b[0m", "#"]);
    let rows = render_system_info(&art, &info, 30, 24);
    let expected = vec![
        format!("┌{}┐", "─".repeat(28)),
        format!("│{}##########{}│", " ".repeat(9), " ".repeat(9)),
        format!("│{}\x1b[35m#####\x1b[0m{}│", " ".repeat(11), " ".repeat(12)),
        format!("│{}#{}│", " ".repeat(13), " ".repeat(14)),
        format!("│{}│", " ".repeat(28)),
        format!("│ Host   abcdefghij{}│", " ".repeat(10)),
        format!("│ Uptime 3 mins{}│", " ".repeat(14)),
        format!("└{}┘", "─".repeat(28)),
    ];
    assert_eq!(rows, expected);
    for row in &rows {
        assert_eq!(visible_width(row), 30);
    }
}

#[test]
fn gap_is_never_narrower_than_three_columns() {
    colored::control::set_override(false);
    let art = owned(&["####"]);
    let info = pairs(&[("ab", "cdefgh")]);
    let rows = display_side_by_side(&art, &info, 2, 4, 14);
    let expected = vec![
        format!("┌{}┐", "─".repeat(12)),
        "│ ab cdefgh   ####│".to_string(),
        format!("└{}┘", "─".repeat(12)),
    ];
    assert_eq!(rows, expected);
    assert_eq!(visible_width(&rows[1]), 19);
}

#[test]
fn side_by_side_rows_go_on_where_pairs_or_art_end() {
    colored::control::set_override(false);
    let art = owned(&["##", "#"]);
    let info = pairs(&[("a", "b"), ("cc", "d"), ("", "e")]);
    let rows = display_side_by_side(&art, &info, 2, 2, 20);
    let expected = vec![
        format!("┌{}┐", "─".repeat(18)),
        format!("│ a  b{}## │", " ".repeat(10)),
        format!("│ cc d{}#  │", " ".repeat(10)),
        format!("│    e{}   │", " ".repeat(10)),
        format!("└{}┘", "─".repeat(18)),
    ];
    assert_eq!(rows, expected);
    let rows = display_side_by_side(&owned(&["##", "#", "##"]), &pairs(&[("a", "b")]), 1, 2, 20);
    let expected = vec![
        format!("┌{}┐", "─".repeat(18)),
        format!("│ a b{}## │", " ".repeat(11)),
        format!("│   {}#  │", " ".repeat(12)),
        format!("│   {}## │", " ".repeat(12)),
        format!("└{}┘", "─".repeat(18)),
    ];
    assert_eq!(rows, expected);
}

#[test]
fn box_without_content_is_two_borders() {
    colored::control::set_override(false);
    let none: Vec<String> = Vec::new();
    let rows = render_system_info(&none, &pairs(&[]), 6, 24);
    assert_eq!(rows, owned(&["┌────┐", "└────┘"]));
    let rows = render_system_info(&none, &pairs(&[]), 0, 0);
    assert_eq!(rows, owned(&["┌┐", "└┘"]));
    let rows = display_stacked(&none, &pairs(&[]), 0, 1);
    assert_eq!(rows, owned(&["┌┐", "└┘"]));
}

#[test]
fn terminal_without_width_is_drawn_without_failure() {
    colored::control::set_override(false);
    let rows = render_system_info(&owned(&["##"]), &pairs(&[("a", "b")]), 0, 24);
    assert_eq!(rows, owned(&["┌┐", "│##│", "││", "│ a b│", "└┘"]));
}

#[test]
fn rows_are_built_from_given_glyphs() {
    let frame = Frame {
        top_left: "+".to_string(),
        top_right: "+".to_string(),
        bottom_left: "+".to_string(),
        bottom_right: "+".to_string(),
        horizontal: "-".to_string(),
        vertical: "|".to_string(),
    };
    let dressed = pairs(&[("<a> ", "b")]);
    let rows = side_by_side_rows(&frame, &owned(&["##"]), &dressed, 4, 2, 14);
    assert_eq!(
        rows,
        owned(&["+--------------+", "| <a>  b    ## |", "+--------------+"])
    );
    let rows = stacked_rows(&frame, &owned(&["##"]), &dressed, 8);
    assert_eq!(
        rows,
        owned(&["+--------+", "|   ##   |", "|        |", "| <a>  b |", "+--------+"])
    );
}

#[test]
fn row_parts_are_put_together() {
    let frame = plain_frame();
    assert_eq!(make_border_row(&frame.top_left, &frame.horizontal, &frame.top_right, 3), "┌───┐");
    assert_eq!(make_border_row("<", "=-", ">", 2), "<=-=->");
    assert_eq!(make_pair_left("│", "OS  ", "Linux"), "│ OS   Linux");
    assert_eq!(make_blank_left("│", 4), "│      ");
    assert_eq!(close_row("│ab".to_string(), 5, "│"), "│ab   │");
    assert_eq!(close_row("│abcdefgh".to_string(), 5, "│"), "│abcdefgh│");
    assert_eq!(close_row("│abcde".to_string(), 5, "│"), "│abcde│");
}

#[test]
fn labels_are_padded_to_their_display_width() {
    assert_eq!(pad_right("OS", 6), "OS    ");
    assert_eq!(pad_right("Kernel", 6), "Kernel");
    assert_eq!(pad_right("Resolution", 6), "Resolution");
    assert_eq!(pad_right("", 3), "   ");
    assert_eq!(pad_right("日本", 6), "日本  ");
    assert_eq!(pad_right("\x1b[1mOS\x1b[0m", 4), "\x1b[1mOS\x1b[0m  ");
}

#[test]
fn terminal_size_falls_back_to_80_by_24() {
    assert_eq!(get_terminal_size(None), (80, 24));
    assert_eq!(get_terminal_size(Some((132, 43))), (132, 43));
    assert_eq!(get_terminal_size(Some((0, 0))), (0, 0));
}

#[test]
fn logo_is_read_line_by_line_or_replaced() {
    assert_eq!(default_logo(), owned(&["  ___", " (o o)", "(  V  )", "--m-m-"]));
    assert_eq!(logo_lines(None), default_logo());
    assert_eq!(logo_lines(Some("ab\n cd\r\n\nef")), owned(&["ab", " cd", "", "ef"]));
    assert_eq!(logo_lines(Some("ab\n")), owned(&["ab"]));
    assert_eq!(logo_lines(Some("")), Vec::<String>::new());
    assert_eq!(read_ascii_art(None), None);
    assert_eq!(read_ascii_art(Some("")), Some(Vec::<String>::new()));
    assert_eq!(read_ascii_art(Some("a\nb\n")), Some(owned(&["a", "b"])));
}

#[test]
fn box_is_drawn_as_the_plan_says() {
    colored::control::set_override(false);
    let art = owned(&["##"]);
    let info = pairs(&[("a", "b")]);
    let plan = LayoutPlan {
        mode: LayoutMode::SideBySide,
        label_column_width: 2,
        art_column_width: 3,
        content_width: 14,
    };
    assert_eq!(
        render_plan(&art, &info, &plan),
        owned(&["┌──────────────┐", "│ a  b     ##  │", "└──────────────┘"])
    );
    let plan = LayoutPlan { mode: LayoutMode::Stacked, ..plan };
    assert_eq!(
        render_plan(&art, &info, &plan),
        owned(&[
            "┌──────────────┐",
            "│      ##      │",
            "│              │",
            "│ a  b         │",
            "└──────────────┘"
        ])
    );
}

#[test]
fn wide_and_styled_content_keeps_the_rows_aligned() {
    colored::control::set_override(false);
    let art = owned(&["\x1b[36m日本\x1b[0m", "##"]);
    let info = pairs(&[("名前", "한국어"), ("e\u{301}", "ＡＢ"), ("\x1b[1mOS\x1b[0m", "Linux")]);
    let rows = render_system_info(&art, &info, 40, 24);
    let expected = vec![
        format!("┌{}┐", "─".repeat(38)),
        format!("│ 名前 한국어{}\x1b[36m日本\x1b[0m │", " ".repeat(21)),
        format!("│ e\u{301}    ＡＢ{}##   │", " ".repeat(23)),
        format!("│ \x1b[1mOS\x1b[0m   Linux{}     │", " ".repeat(22)),
        format!("└{}┘", "─".repeat(38)),
    ];
    assert_eq!(rows, expected);
    for row in &rows {
        assert_eq!(visible_width(row), 40);
    }
}
