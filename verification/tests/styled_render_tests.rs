use fetchbox::metrics::visible_width;
use fetchbox::render::display_side_by_side;
use fetchbox::render::paint_frame;
use fetchbox::summary::render_system_info;

fn pairs(items: &[(&str, &str)]) -> Vec<(String, String)> {
    items.iter().map(|(label, value)| (label.to_string(), value.to_string())).collect()
}

#[test]
fn painted_glyphs_stand_between_style_sequences() {
    colored::control::set_override(true);
    let frame = paint_frame();
    assert_eq!(frame.vertical, "\x1b[1;34m│\x1b[0m");
    assert_eq!(frame.horizontal, "\x1b[1;34m─\x1b[0m");
    assert_eq!(frame.top_left, "\x1b[1;34m┌\x1b[0m");
    assert_eq!(frame.top_right, "\x1b[1;34m┐\x1b[0m");
    assert_eq!(frame.bottom_left, "\x1b[1;34m└\x1b[0m");
    assert_eq!(frame.bottom_right, "\x1b[1;34m┘\x1b[0m");
}

#[test]
fn painted_rows_are_as_wide_as_plain_ones() {
    colored::control::set_override(true);
    let art = vec!["\x1b[33m####\x1b[0m".to_string(), "##".to_string()];
    let info = pairs(&[("OS", "Linux"), ("Kernel", "6.1"), ("", "more")]);
    let rows = render_system_info(&art, &info, 40, 24);
    assert_eq!(rows.len(), 5);
    for row in &rows {
        assert_eq!(visible_width(row), 40);
    }
    let bar = "\x1b[1;34m│\x1b[0m";
    assert_eq!(
        rows[1],
        format!(
            "{} \x1b[1;34mOS    \x1b[0m Linux{}\x1b[33m####\x1b[0m {}",
            bar,
            " ".repeat(20),
            bar
        )
    );
    assert_eq!(rows[0], format!("\x1b[1;34m┌\x1b[0m{}\x1b[1;34m┐\x1b[0m", "\x1b[1;34m─\x1b[0m".repeat(38)));
}

#[test]
fn painted_labels_keep_their_column() {
    colored::control::set_override(true);
    let art = vec!["#".to_string()];
    let rows = display_side_by_side(&art, &pairs(&[("a", "b")]), 3, 1, 20);
    let bar = "\x1b[1;34m│\x1b[0m";
    assert_eq!(rows[1], format!("{} \x1b[1;34ma  \x1b[0m b{}# {}", bar, " ".repeat(10), bar));
    assert_eq!(visible_width(&rows[1]), 20);
}

#[test]
fn style_is_switched_on_again_behind_a_reset_in_a_label() {
    colored::control::set_override(true);
    let art = vec!["#".to_string()];
    let rows = display_side_by_side(&art, &pairs(&[("a\x1b[0mb", "c")]), 3, 1, 20);
    let bar = "\x1b[1;34m│\x1b[0m";
    assert_eq!(
        rows[1],
        format!(
            "{} \x1b[1;34ma\x1b[0m\x1b[1;34mb \x1b[0m c{}# {}",
            bar,
            " ".repeat(10),
            bar
        )
    );
    assert_eq!(visible_width(&rows[1]), 20);
}

/// The text with the style switched on again behind every reset in it.
fn restyled(text: &str) -> String {
    text.replace("\x1b[0m", "\x1b[0m\x1b[1;34m")
}

#[test]
fn painting_wraps_the_text_and_restores_the_style_behind_resets() {
    colored::control::set_override(true);
    let alphabet = ['\x1b', '[', '0', 'm', 'a'];
    let mut texts = vec![String::new()];
    let mut last = vec![String::new()];
    for _ in 0..6 {
        let mut next = Vec::new();
        for text in &last {
            for c in alphabet {
                let mut longer = text.clone();
                longer.push(c);
                next.push(longer);
            }
        }
        texts.extend(next.iter().cloned());
        last = next;
    }
    texts.push("\x1b[0m\x1b[0m".to_string());
    texts.push("a\x1b[0mb\x1b[0m\x1b[0mc\x1b[0".to_string());
    texts.push("\x1b[0\x1b[0m\x1b[1;34m\x1b[0mm".to_string());
    let art = vec!["#".to_string()];
    let bar = "\x1b[1;34m│\x1b[0m";
    for text in texts {
        let rows = display_side_by_side(&art, &pairs(&[(text.as_str(), "")]), 0, 1, 0);
        let expected = format!("{} \x1b[1;34m{}\x1b[0m    #{}", bar, restyled(&text), bar);
        assert_eq!(rows[1], expected, "{:?}", text);
    }
}
