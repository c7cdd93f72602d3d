use fetchbox::layout::max_label_width;
use fetchbox::layout::max_value_width;
use fetchbox::layout::plan_from_widths;
use fetchbox::layout::plan_layout;
use fetchbox::layout::LayoutMode;
use fetchbox::layout::LayoutPlan;

fn owned(lines: &[&str]) -> Vec<String> {
    lines.iter().map(|line| line.to_string()).collect()
}

fn pairs(items: &[(&str, &str)]) -> Vec<(String, String)> {
    items.iter().map(|(label, value)| (label.to_string(), value.to_string())).collect()
}

#[test]
fn wide_terminal_is_planned_side_by_side() {
    let art = owned(&["##########", "##########", "##########", "##########"]);
    let info = pairs(&[("OS", "Linux"), ("Kernel", "6.1"), ("Uptime", "1 hours, 2 mins")]);
    let plan = plan_layout(&art, &info, 80);
    assert_eq!(
        plan,
        LayoutPlan {
            mode: LayoutMode::SideBySide,
            label_column_width: 6,
            art_column_width: 10,
            content_width: 78,
        }
    );
}

#[test]
fn narrow_terminal_is_planned_stacked() {
    let art = owned(&["##########", "##########", "##########", "##########"]);
    let info = pairs(&[
        ("OS", "Ubuntu 22.04.3 LTS"),
        ("Kernel", "Linux 6.1.0-13-amd64"),
        ("Uptime", "1 hours, 2 mins"),
    ]);
    let plan = plan_layout(&art, &info, 20);
    assert_eq!(
        plan,
        LayoutPlan {
            mode: LayoutMode::Stacked,
            label_column_width: 6,
            art_column_width: 10,
            content_width: 18,
        }
    );
}

#[test]
fn mode_changes_at_the_boundary() {
    let art = owned(&["##########"]);
    let info = pairs(&[("ab", "cde")]);
    assert_eq!(plan_layout(&art, &info, 22).mode, LayoutMode::SideBySide);
    assert_eq!(plan_layout(&art, &info, 21).mode, LayoutMode::Stacked);
    assert_eq!(plan_layout(&art, &info, 23).mode, LayoutMode::SideBySide);
}

#[test]
fn plan_is_the_same_for_the_same_input() {
    let art = owned(&["\x1b[34m/\\_/\\\x1b[0m", "( o.o )"]);
    let info = pairs(&[("Host", "box"), ("", "more")]);
    assert_eq!(plan_layout(&art, &info, 40), plan_layout(&art, &info, 40));
    assert_eq!(plan_layout(&art, &info, 12), plan_layout(&art, &info, 12));
}

#[test]
fn plan_without_pairs_needs_the_art_and_one_column() {
    let art = owned(&["#####"]);
    let info = pairs(&[]);
    let plan = plan_layout(&art, &info, 10);
    assert_eq!(
        plan,
        LayoutPlan {
            mode: LayoutMode::SideBySide,
            label_column_width: 0,
            art_column_width: 5,
            content_width: 8,
        }
    );
    assert_eq!(plan_layout(&art, &info, 9).mode, LayoutMode::Stacked);
}

#[test]
fn plan_without_content_has_empty_columns() {
    let art: Vec<String> = Vec::new();
    let info = pairs(&[]);
    let plan = plan_layout(&art, &info, 5);
    assert_eq!(
        plan,
        LayoutPlan {
            mode: LayoutMode::SideBySide,
            label_column_width: 0,
            art_column_width: 0,
            content_width: 3,
        }
    );
}

#[test]
fn tiny_terminal_is_planned_stacked_with_no_content_width() {
    let art: Vec<String> = Vec::new();
    let info = pairs(&[]);
    for width in 0..5 {
        let plan = plan_layout(&art, &info, width);
        assert_eq!(plan.mode, LayoutMode::Stacked);
        assert_eq!(plan.content_width, width.saturating_sub(2));
    }
}

#[test]
fn columns_are_measured_in_cells() {
    let info = pairs(&[("\x1b[1mOS\x1b[0m", "日本"), ("Kernel", "x")]);
    assert_eq!(max_label_width(&info), 6);
    assert_eq!(max_value_width(&info), 4);
    assert_eq!(max_label_width(&pairs(&[])), 0);
    assert_eq!(max_value_width(&pairs(&[])), 0);
}

#[test]
fn plan_follows_from_measured_widths() {
    assert_eq!(plan_from_widths(6, 15, 10, true, 80).mode, LayoutMode::SideBySide);
    assert_eq!(plan_from_widths(2, 3, 10, true, 22).mode, LayoutMode::SideBySide);
    assert_eq!(plan_from_widths(2, 3, 10, true, 21).mode, LayoutMode::Stacked);
    assert_eq!(plan_from_widths(2, 3, 10, false, 15).mode, LayoutMode::SideBySide);
    assert_eq!(plan_from_widths(2, 3, 10, false, 14).mode, LayoutMode::Stacked);
    assert_eq!(
        plan_from_widths(usize::MAX, usize::MAX, usize::MAX, true, usize::MAX),
        LayoutPlan {
            mode: LayoutMode::Stacked,
            label_column_width: usize::MAX,
            art_column_width: usize::MAX,
            content_width: usize::MAX - 2,
        }
    );
    assert_eq!(plan_from_widths(0, 0, 0, false, 3).mode, LayoutMode::Stacked);
    assert_eq!(plan_from_widths(0, 0, 0, false, 5).mode, LayoutMode::SideBySide);
}
