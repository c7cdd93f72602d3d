use fetchbox::art::calculate_layout;
use fetchbox::art::crop_line;
use fetchbox::art::format_ascii_art_for_display;
use fetchbox::art::max_info_width;

fn owned(lines: &[&str]) -> Vec<String> {
    lines.iter().map(|line| line.to_string()).collect()
}

fn pairs(items: &[(&str, &str)]) -> Vec<(String, String)> {
    items.iter().map(|(label, value)| (label.to_string(), value.to_string())).collect()
}

#[test]
fn art_that_fits_stays_as_it_is() {
    let art = owned(&["a", "bb", "ccc"]);
    assert_eq!(format_ascii_art_for_display(&art, 3), art);
    assert_eq!(format_ascii_art_for_display(&art, 10), art);
}

#[test]
fn tall_art_loses_its_last_lines() {
    let art = owned(&["a", "bb", "ccc"]);
    assert_eq!(format_ascii_art_for_display(&art, 2), owned(&["a", "bb"]));
    assert_eq!(format_ascii_art_for_display(&art, 0), Vec::<String>::new());
}

#[test]
fn empty_art_stays_empty() {
    let art: Vec<String> = Vec::new();
    assert_eq!(format_ascii_art_for_display(&art, 5), Vec::<String>::new());
}

#[test]
fn art_taller_than_the_terminal_is_cut_to_its_height_less_four() {
    let art: Vec<String> = (0..30).map(|i| format!("line {}", i)).collect();
    let terminal_height: usize = 24;
    let fitted = format_ascii_art_for_display(&art, terminal_height.saturating_sub(4));
    assert_eq!(fitted.len(), 20);
    assert_eq!(fitted[..], art[..20]);
}

#[test]
fn info_width_is_label_value_and_two() {
    assert_eq!(max_info_width(&pairs(&[("OS", "Linux"), ("Kernel", "6.1")])), 11);
    assert_eq!(max_info_width(&pairs(&[])), 0);
    assert_eq!(max_info_width(&pairs(&[("", "")])), 2);
}

#[test]
fn art_beside_information_that_fits_is_unchanged() {
    let art = owned(&["abcdefghij", "abc"]);
    let info = pairs(&[("OS", "Linux")]);
    let (shown, other) = calculate_layout(&art, &info, 23);
    assert_eq!(shown, art);
    assert!(other.is_empty());
}

#[test]
fn art_is_cropped_to_the_room_that_is_left() {
    let art = owned(&["abcdefghij", "a", "abc"]);
    let info = pairs(&[("OS", "Linux")]);
    let (shown, other) = calculate_layout(&art, &info, 22);
    assert_eq!(shown, owned(&["abcdefghi", "a", "abc"]));
    assert!(other.is_empty());
    let (shown, _) = calculate_layout(&art, &info, 15);
    assert_eq!(shown, owned(&["ab", "a", "ab"]));
}

#[test]
fn art_is_dropped_where_no_room_is_left() {
    let art = owned(&["abcdefghij", "abc"]);
    let info = pairs(&[("OS", "Linux")]);
    let (shown, other) = calculate_layout(&art, &info, 13);
    assert!(shown.is_empty());
    assert!(other.is_empty());
    let (shown, _) = calculate_layout(&art, &info, 0);
    assert!(shown.is_empty());
}

#[test]
fn line_is_cut_character_by_character() {
    assert_eq!(crop_line("abcdef", 4), "abcd");
    assert_eq!(crop_line("abc", 4), "abc");
    assert_eq!(crop_line("abcd", 4), "abcd");
    assert_eq!(crop_line("abc", 0), "");
}

#[test]
fn wide_character_that_does_not_fit_ends_the_line() {
    assert_eq!(crop_line("日本語", 3), "日");
    assert_eq!(crop_line("日本語", 4), "日本");
    assert_eq!(crop_line("日本語", 1), "");
}

#[test]
fn cutting_counts_the_characters_of_a_styling_sequence() {
    assert_eq!(crop_line("\x1b[31mabc", 2), "\x1b[3");
}
