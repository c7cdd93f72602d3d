use fetchbox::text::split_words;
use fetchbox::wrap::break_long_text;

fn owned(lines: &[&str]) -> Vec<String> {
    lines.iter().map(|line| line.to_string()).collect()
}

#[test]
fn empty_text_gives_no_line() {
    assert_eq!(break_long_text("", 10), Vec::<String>::new());
    assert_eq!(break_long_text("", 0), Vec::<String>::new());
}

#[test]
fn white_space_alone_gives_no_line() {
    assert_eq!(break_long_text("   \t\n ", 10), Vec::<String>::new());
}

#[test]
fn words_are_packed_greedily() {
    assert_eq!(break_long_text("aaa bbb ccc", 7), owned(&["aaa bbb", "ccc"]));
    assert_eq!(break_long_text("a bb ccc", 4), owned(&["a bb", "ccc"]));
    assert_eq!(break_long_text("hello world", 5), owned(&["hello", "world"]));
}

#[test]
fn line_may_be_exactly_as_long_as_the_limit() {
    assert_eq!(break_long_text("abc def", 7), owned(&["abc def"]));
    assert_eq!(break_long_text("abc def", 6), owned(&["abc", "def"]));
}

#[test]
fn long_word_stands_alone_unbroken() {
    assert_eq!(
        break_long_text("supercalifragilistic is it", 5),
        owned(&["supercalifragilistic", "is it"])
    );
    assert_eq!(break_long_text("abcdefgh", 3), owned(&["abcdefgh"]));
}

#[test]
fn limit_zero_puts_each_word_on_its_line() {
    assert_eq!(break_long_text("a b c", 0), owned(&["a", "b", "c"]));
}

#[test]
fn white_space_between_words_becomes_one_space() {
    assert_eq!(break_long_text("  a \t b\n c  ", 10), owned(&["a b c"]));
}

#[test]
fn length_is_counted_in_bytes() {
    assert_eq!(break_long_text("héllo wörld", 13), owned(&["héllo wörld"]));
    assert_eq!(break_long_text("héllo wörld", 12), owned(&["héllo", "wörld"]));
}

#[test]
fn package_summary_is_wrapped_at_35() {
    let text = "1234 (dpkg), 1250 (apt), 12 (flatpak), 7 (snap), 45 (cargo)";
    assert_eq!(
        break_long_text(text, 35),
        owned(&["1234 (dpkg), 1250 (apt), 12", "(flatpak), 7 (snap), 45 (cargo)"])
    );
}

#[test]
fn wrapped_lines_keep_the_words_in_order() {
    let text = " the quick  brown fox jumps over\tthe lazy dog ";
    let lines = break_long_text(text, 11);
    let mut again: Vec<String> = Vec::new();
    for line in &lines {
        assert!(line.len() <= 11);
        assert_eq!(line.trim(), line.as_str());
        again.extend(split_words(line));
    }
    assert_eq!(again, split_words(text));
    assert_eq!(
        again,
        owned(&["the", "quick", "brown", "fox", "jumps", "over", "the", "lazy", "dog"])
    );
}

#[test]
fn words_are_split_at_unicode_white_space() {
    assert_eq!(split_words("a\u{a0}b\u{3000}c\u{2003}d"), owned(&["a", "b", "c", "d"]));
    assert_eq!(split_words("a\u{200b}b"), owned(&["a\u{200b}b"]));
    assert_eq!(split_words(""), Vec::<String>::new());
}
