use fetchbox::modules::terminal::contains_digit;
use fetchbox::modules::terminal::detect_font_from_config;
use fetchbox::modules::terminal::font_source;
use fetchbox::modules::terminal::get_alacritty_font;
use fetchbox::modules::terminal::get_apple_terminal_font;
use fetchbox::modules::terminal::get_iterm2_font;
use fetchbox::modules::terminal::get_kitty_font;
use fetchbox::modules::terminal::get_terminal_font;
use fetchbox::modules::terminal::get_terminal_info;
use fetchbox::modules::terminal::get_terminal_info_internal;
use fetchbox::modules::terminal::get_terminal_version;
use fetchbox::modules::terminal::select_font_source;
use fetchbox::modules::terminal::terminal_to_ask;
use fetchbox::modules::terminal::terminal_version_from;
use fetchbox::modules::terminal::variable_is_set;
use fetchbox::modules::terminal::with_version;
use fetchbox::modules::terminal::FontSource;

#[test]
fn terminal_pairs_have_their_labels() {
    assert_eq!(
        get_terminal_info("kitty 0.26.5 (xterm-kitty)".to_string(), "Fira Code".to_string()),
        vec![
            ("Terminal".to_string(), "kitty 0.26.5 (xterm-kitty)".to_string()),
            ("Font".to_string(), "Fira Code".to_string()),
        ]
    );
}

#[test]
fn terminal_version_is_read_from_what_the_terminal_prints() {
    assert_eq!(get_terminal_version(Some("kitty 0.26.5 created by")), Some("0.26.5".to_string()));
    assert_eq!(get_terminal_version(Some("alacritty 0.12 (abc)")), Some("0.12".to_string()));
    assert_eq!(get_terminal_version(Some("term build7 x")), Some("build7".to_string()));
    assert_eq!(get_terminal_version(Some("term x v1.x y")), Some("v1.x".to_string()));
    assert_eq!(get_terminal_version(Some("term x y")), None);
    assert_eq!(get_terminal_version(Some("")), None);
    assert_eq!(get_terminal_version(None), None);
}

#[test]
fn terminal_version_takes_what_the_expression_found() {
    assert_eq!(terminal_version_from("a b1", Some("2.0".to_string())), Some("2.0".to_string()));
    assert_eq!(terminal_version_from("a b1 c.2", None), Some("b1".to_string()));
    assert_eq!(terminal_version_from("a b c.2 d.3", None), Some("c.2".to_string()));
    assert_eq!(terminal_version_from("a1. b", None), Some("a1.".to_string()));
    assert_eq!(terminal_version_from("7", None), None);
    assert_eq!(terminal_version_from("a.b 7", None), Some("7".to_string()));
}

#[test]
fn digits_and_variables_are_recognised() {
    assert!(contains_digit("v7"));
    assert!(!contains_digit("seven"));
    assert!(!contains_digit(""));
    assert!(variable_is_set(Some("1")));
    assert!(!variable_is_set(Some("")));
    assert!(!variable_is_set(None));
}

#[test]
fn program_to_ask_follows_the_environment() {
    assert_eq!(
        terminal_to_ask(Some("xterm-kitty"), Some("WezTerm"), Some("1"), None, None, None),
        Some("kitty".to_string())
    );
    assert_eq!(terminal_to_ask(Some("xterm"), Some("WezTerm"), Some("2023"), None, None, None), None);
    assert_eq!(
        terminal_to_ask(Some("xterm"), Some("WezTerm"), None, Some("1"), None, None),
        Some("WezTerm".to_string())
    );
    assert_eq!(
        terminal_to_ask(Some("xterm"), Some("vscode"), Some("unknown"), None, None, None),
        Some("vscode".to_string())
    );
    assert_eq!(
        terminal_to_ask(None, None, Some("1"), Some("42"), Some("log"), Some("s")),
        Some("kitty".to_string())
    );
    assert_eq!(
        terminal_to_ask(None, None, None, Some(""), Some("log"), Some("s")),
        Some("alacritty".to_string())
    );
    assert_eq!(
        terminal_to_ask(None, None, None, None, None, Some("s")),
        Some("gnome-terminal".to_string())
    );
    assert_eq!(terminal_to_ask(Some("linux"), None, None, None, Some(""), Some("")), None);
}

#[test]
fn terminal_line_follows_the_environment() {
    assert_eq!(
        get_terminal_info_internal(Some("xterm-kitty"), None, None, None, None, None, Some("0.26")),
        "kitty 0.26 (xterm-kitty)"
    );
    assert_eq!(
        get_terminal_info_internal(Some("xterm-kitty"), Some("x"), Some("1"), None, None, None, None),
        "kitty unknown (xterm-kitty)"
    );
    assert_eq!(
        get_terminal_info_internal(Some("xterm"), Some("WezTerm"), Some("2023"), None, None, None, Some("9")),
        "WezTerm 2023 (xterm)"
    );
    assert_eq!(
        get_terminal_info_internal(Some("xterm"), Some("vscode"), None, None, None, None, Some("1.85")),
        "vscode 1.85 (xterm)"
    );
    assert_eq!(
        get_terminal_info_internal(Some("xterm"), Some("vscode"), Some("unknown"), None, None, None, None),
        "vscode (xterm)"
    );
    assert_eq!(
        get_terminal_info_internal(None, None, None, Some("7"), None, None, Some("0.3")),
        "kitty 0.3 (unknown)"
    );
    assert_eq!(
        get_terminal_info_internal(Some("xterm"), None, None, None, Some("l"), Some("g"), None),
        "alacritty unknown (xterm)"
    );
    assert_eq!(
        get_terminal_info_internal(Some("xterm"), None, None, Some(""), Some(""), Some("g"), Some("3.4")),
        "gnome-terminal 3.4 (xterm)"
    );
    assert_eq!(
        get_terminal_info_internal(Some("linux"), None, Some("5"), None, None, None, Some("1")),
        "linux"
    );
    assert_eq!(get_terminal_info_internal(None, None, None, None, None, None, None), "unknown");
    assert_eq!(with_version("a", "b", "c"), "a b (c)");
}

#[test]
fn font_source_follows_program_and_terminal_type() {
    assert_eq!(font_source(Some("xterm-kitty"), Some("iTerm2")), FontSource::Iterm2);
    assert_eq!(font_source(Some("xterm"), Some("ITERM2")), FontSource::Iterm2);
    assert_eq!(font_source(Some("xterm"), Some("Apple_Terminal")), FontSource::AppleTerminal);
    assert_eq!(font_source(Some("xterm-kitty"), Some("WezTerm")), FontSource::Resources);
    assert_eq!(font_source(Some("xterm-kitty"), None), FontSource::Kitty);
    assert_eq!(font_source(Some("alacritty"), None), FontSource::Alacritty);
    assert_eq!(font_source(Some("xterm"), None), FontSource::Resources);
    assert_eq!(font_source(None, None), FontSource::Resources);
    assert_eq!(select_font_source(Some("x"), Some("iTerm2")), FontSource::Resources);
    assert_eq!(select_font_source(Some("x"), Some("iterm2")), FontSource::Iterm2);
}

#[test]
fn fonts_are_read_from_preferences() {
    let iterm = "<key>Normal Font</key>\n\t<string>Menlo-Regular 12</string>\n<key>Font</key><string>x</string>";
    assert_eq!(get_iterm2_font(iterm), Some("Menlo-Regular 12".to_string()));
    assert_eq!(get_iterm2_font("<key>Font</key><string>x</string>"), None);
    assert_eq!(get_apple_terminal_font(iterm), Some("x".to_string()));
    assert_eq!(get_apple_terminal_font(""), None);
}

#[test]
fn fonts_are_read_from_configurations() {
    assert_eq!(
        get_kitty_font("# fonts\nfont_family \"Fira Code\"\nfont_family Other"),
        Some("Fira Code".to_string())
    );
    assert_eq!(get_kitty_font("font_size 11"), None);
    let toml = "[font.normal]\nfamily = bare\n  family = \"JetBrains Mono\"\nfamily = \"x\"";
    assert_eq!(get_alacritty_font(toml, true), Some("JetBrains Mono".to_string()));
    assert_eq!(get_alacritty_font("family: \"x\"", true), None);
    let yaml = "font:\n  normal:\n    family: \"Hack\"\n";
    assert_eq!(get_alacritty_font(yaml, false), Some("Hack".to_string()));
    assert_eq!(get_alacritty_font("size: 11", false), None);
    assert_eq!(
        detect_font_from_config("  xterm*font: \"fixed\"\n*.font: other", false),
        Some("fixed".to_string())
    );
    assert_eq!(
        detect_font_from_config("  xterm*font: \"fixed\"\n*.font: other", true),
        Some("other".to_string())
    );
    assert_eq!(detect_font_from_config("", true), None);
    assert_eq!(get_terminal_font(Some("Hack".to_string())), "Hack");
    assert_eq!(get_terminal_font(None), "Unknown");
}
