use crate::capture::first_group;
use crate::capture::regex_group;
use crate::facts::opt_str;
use crate::facts::opt_text;
use crate::facts::pair;
use crate::facts::pair_texts;
use crate::scan::contains;
use crate::scan::has_char;
use crate::scan::has_prefix;
use crate::scan::has_text;
use crate::scan::same_text;
use crate::scan::starts_with;
use crate::scan::trim;
use crate::scan::trimmed;
use crate::settings::find_setting;
use crate::settings::first_value;
use crate::settings::Setting;
use crate::text::lines;
use crate::text::split_lines;
use crate::text::split_words;
use crate::text::texts;
use crate::text::to_chars;
use crate::text::words;
use vstd::prelude::*;
use vstd::string::StringExecFns;

verus! {

/// The expression that finds the version in what a terminal prints.
pub const TERMINAL_VERSION_PATTERN: &'static str = r"\b(\d+\.\d+(?:\.\d+)?)\b";

/// The expression that finds the font in the preferences of iTerm2.
pub const ITERM2_FONT_PATTERN: &'static str = r#"<key>Normal Font</key>\s*<string>(.*?)</string>"#;

/// The expression that finds the font in the preferences of Apple's Terminal.
pub const APPLE_FONT_PATTERN: &'static str = r#"<key>Font</key>\s*<string>(.*?)</string>"#;

/// The expression that finds a quoted value.
pub const QUOTED_PATTERN: &'static str = r#""([^"]+)""#;

/// Where the font of the terminal is looked up.
#[derive(Clone, Copy, Debug, PartialEq, Eq, Structural)]
pub enum FontSource {
    /// The preferences of iTerm2.
    Iterm2,
    /// The preferences of Apple's Terminal.
    AppleTerminal,
    /// The configuration of kitty.
    Kitty,
    /// The configuration of Alacritty.
    Alacritty,
    /// The X resources.
    Resources,
}

/// What `str::to_lowercase` returns for the given text.
pub uninterp spec fn lowercased(text: Seq<char>) -> Seq<char>;

/// A variable of the environment that is set to something.
pub open spec fn is_set(value: Option<Seq<char>>) -> bool {
    match value {
        Some(text) => text.len() > 0,
        None => false,
    }
}

/// A value, or `unknown` where there is none.
pub open spec fn or_unknown(value: Option<Seq<char>>) -> Seq<char> {
    match value {
        Some(text) => text,
        None => "unknown"@,
    }
}

/// Whether the text holds a decimal digit.
pub open spec fn has_digit(s: Seq<char>) -> bool {
    exists|i: int| 0 <= i < s.len() && '0' <= s[i] && s[i] <= '9'
}

/// The first of the words that looks like a version: it holds a digit and a
/// dot.
pub open spec fn first_dotted(parts: Seq<Seq<char>>) -> Option<Seq<char>>
    decreases parts.len(),
{
    if parts.len() == 0 {
        None
    } else if has_digit(parts[0]) && has_char(parts[0], '.') {
        Some(parts[0])
    } else {
        first_dotted(parts.drop_first())
    }
}

/// The version in what a terminal printed: the number that the expression
/// found; else the second word if it holds a digit; else the first word that
/// holds a digit and a dot.
pub open spec fn terminal_version_in(text: Seq<char>, found: Option<Seq<char>>) -> Option<
    Seq<char>,
> {
    match found {
        Some(number) => Some(number),
        None => if words(text).len() >= 2 && has_digit(words(text)[1]) {
            Some(words(text)[1])
        } else {
            first_dotted(words(text))
        },
    }
}

/// A terminal with its version and, in brackets, the terminal type.
pub open spec fn versioned(name: Seq<char>, version: Seq<char>, term: Seq<char>) -> Seq<char> {
    name + " "@ + version + " ("@ + term + ")"@
}

/// The program that is asked for its version, if any is: kitty where the
/// terminal type or the environment names it, the terminal program where it
/// does not give its version itself, Alacritty or GNOME Terminal where the
/// environment shows one of them.
pub open spec fn program_to_ask(
    term: Option<Seq<char>>,
    program: Option<Seq<char>>,
    program_version: Option<Seq<char>>,
    kitty_pid: Option<Seq<char>>,
    alacritty_log: Option<Seq<char>>,
    gnome_screen: Option<Seq<char>>,
) -> Option<Seq<char>> {
    if has_text(or_unknown(term), "kitty"@) {
        Some("kitty"@)
    } else if program is Some {
        if or_unknown(program_version) != "unknown"@ {
            None
        } else {
            program
        }
    } else if is_set(kitty_pid) {
        Some("kitty"@)
    } else if is_set(alacritty_log) {
        Some("alacritty"@)
    } else if is_set(gnome_screen) {
        Some("gnome-terminal"@)
    } else {
        None
    }
}

/// The line about the terminal.
pub open spec fn terminal_line(
    term: Option<Seq<char>>,
    program: Option<Seq<char>>,
    program_version: Option<Seq<char>>,
    kitty_pid: Option<Seq<char>>,
    alacritty_log: Option<Seq<char>>,
    gnome_screen: Option<Seq<char>>,
    version: Option<Seq<char>>,
) -> Seq<char> {
    let kind = or_unknown(term);
    if has_text(kind, "kitty"@) {
        versioned("kitty"@, or_unknown(version), kind)
    } else if program is Some {
        if or_unknown(program_version) != "unknown"@ {
            versioned(program->0, or_unknown(program_version), kind)
        } else if or_unknown(version) != "unknown"@ {
            versioned(program->0, or_unknown(version), kind)
        } else {
            program->0 + " ("@ + kind + ")"@
        }
    } else if is_set(kitty_pid) {
        versioned("kitty"@, or_unknown(version), kind)
    } else if is_set(alacritty_log) {
        versioned("alacritty"@, or_unknown(version), kind)
    } else if is_set(gnome_screen) {
        versioned("gnome-terminal"@, or_unknown(version), kind)
    } else {
        kind
    }
}

/// Where the font is looked up, given the terminal program in lower case.
pub open spec fn font_source_for(term: Option<Seq<char>>, program_lower: Option<Seq<char>>) -> FontSource {
    match program_lower {
        Some(name) => if name == "iterm2"@ {
            FontSource::Iterm2
        } else if name == "apple_terminal"@ {
            FontSource::AppleTerminal
        } else {
            FontSource::Resources
        },
        None => if has_text(or_unknown(term), "kitty"@) {
            FontSource::Kitty
        } else if has_text(or_unknown(term), "alacritty"@) {
            FontSource::Alacritty
        } else {
            FontSource::Resources
        },
    }
}

/// The font that the first line of a TOML configuration of Alacritty gives:
/// the first line that begins with `family =` and holds a quoted value.
pub open spec fn toml_font(text_lines: Seq<Seq<char>>) -> Option<Seq<char>>
    decreases text_lines.len(),
{
    if text_lines.len() == 0 {
        None
    } else if has_prefix(trimmed(text_lines[0]), "family ="@) && regex_group(
        QUOTED_PATTERN@,
        text_lines[0],
    ) is Some {
        regex_group(QUOTED_PATTERN@, text_lines[0])
    } else {
        toml_font(text_lines.drop_first())
    }
}

/// Calls `str::to_lowercase`, whose result depends on the text alone and is
/// only named.
#[verifier::external_body]
fn lowercase(text: &str) -> (lower: String)
    ensures
        lower@ == lowercased(text@),
{
    text.to_lowercase()
}

/// Whether the text holds a decimal digit.
pub fn contains_digit(s: &str) -> (r: bool)
    ensures
        r == has_digit(s@),
{
    let text = to_chars(s);
    let mut i: usize = 0;
    while i < text.len()
        invariant
            i <= text.len(),
            text@ == s@,
            forall|k: int| 0 <= k < i ==> !('0' <= s@[k] && s@[k] <= '9'),
        decreases text.len() - i,
    {
        if '0' <= text[i] && text[i] <= '9' {
            return true;
        }
        i += 1;
    }
    false
}

/// Whether a variable of the environment is set to something.
pub fn variable_is_set(value: Option<&str>) -> (r: bool)
    ensures
        r == is_set(opt_str(value)),
{
    match value {
        Some(text) => !text.is_empty(),
        None => false,
    }
}

/// The version in what a terminal printed, given what the version expression
/// found in it.
pub fn terminal_version_from(output: &str, found: Option<String>) -> (version: Option<String>)
    ensures
        opt_text(version) == terminal_version_in(output@, opt_text(found)),
{
    match found {
        Some(number) => Some(number),
        None => {
            let parts = split_words(output);
            if parts.len() >= 2 {
                if contains_digit(parts[1].as_str()) {
                    return Some(parts[1].clone());
                }
            }
            let mut i: usize = 0;
            assert(texts(parts@).skip(0) =~= texts(parts@));
            while i < parts.len()
                invariant
                    i <= parts.len(),
                    found is None,
                    texts(parts@) == words(output@),
                    !(words(output@).len() >= 2 && has_digit(words(output@)[1])),
                    first_dotted(texts(parts@)) == first_dotted(texts(parts@).skip(i as int)),
                decreases parts.len() - i,
            {
                let ghost rest = texts(parts@).skip(i as int);
                assert(rest.drop_first() =~= texts(parts@).skip(i + 1));
                let part = parts[i].as_str();
                if contains_digit(part) && crate::scan::contains_char(part, '.') {
                    return Some(parts[i].clone());
                }
                i += 1;
            }
            None
        },
    }
}

/// The version of a terminal from what it printed when it was asked; `None`
/// where it could not be asked or did not succeed.
pub fn get_terminal_version(output: Option<&str>) -> (version: Option<String>)
    ensures
        opt_text(version) == (match output {
            Some(text) => terminal_version_in(
                text@,
                regex_group(TERMINAL_VERSION_PATTERN@, text@),
            ),
            None => None,
        }),
{
    match output {
        Some(text) => {
            let found = first_group(TERMINAL_VERSION_PATTERN, text);
            terminal_version_from(text, found)
        },
        None => None,
    }
}

/// The program that is to be asked for its version before the line about the
/// terminal is written, if any is.
pub fn terminal_to_ask(
    term: Option<&str>,
    term_program: Option<&str>,
    term_program_version: Option<&str>,
    kitty_pid: Option<&str>,
    alacritty_log: Option<&str>,
    gnome_screen: Option<&str>,
) -> (program: Option<String>)
    ensures
        opt_text(program) == program_to_ask(
            opt_str(term),
            opt_str(term_program),
            opt_str(term_program_version),
            opt_str(kitty_pid),
            opt_str(alacritty_log),
            opt_str(gnome_screen),
        ),
{
    let kind = match term {
        Some(text) => text,
        None => "unknown",
    };
    if contains(kind, "kitty") {
        return Some("kitty".to_owned());
    }
    match term_program {
        Some(name) => {
            let given = match term_program_version {
                Some(text) => text,
                None => "unknown",
            };
            if !same_text(given, "unknown") {
                None
            } else {
                Some(name.to_owned())
            }
        },
        None => {
            if variable_is_set(kitty_pid) {
                Some("kitty".to_owned())
            } else if variable_is_set(alacritty_log) {
                Some("alacritty".to_owned())
            } else if variable_is_set(gnome_screen) {
                Some("gnome-terminal".to_owned())
            } else {
                None
            }
        },
    }
}

/// A terminal with its version and, in brackets, the terminal type.
pub fn with_version(name: &str, version: &str, term: &str) -> (line: String)
    ensures
        line@ == versioned(name@, version@, term@),
{
    let mut line = name.to_owned();
    line.append(" ");
    line.append(version);
    line.append(" (");
    line.append(term);
    line.append(")");
    line
}

/// The line about the terminal, from the environment and the version that the
/// program named by `terminal_to_ask` gave.
pub fn get_terminal_info_internal(
    term: Option<&str>,
    term_program: Option<&str>,
    term_program_version: Option<&str>,
    kitty_pid: Option<&str>,
    alacritty_log: Option<&str>,
    gnome_screen: Option<&str>,
    version: Option<&str>,
) -> (line: String)
    ensures
        line@ == terminal_line(
            opt_str(term),
            opt_str(term_program),
            opt_str(term_program_version),
            opt_str(kitty_pid),
            opt_str(alacritty_log),
            opt_str(gnome_screen),
            opt_str(version),
        ),
{
    let kind = match term {
        Some(text) => text,
        None => "unknown",
    };
    let found = match version {
        Some(text) => text,
        None => "unknown",
    };
    if contains(kind, "kitty") {
        return with_version("kitty", found, kind);
    }
    match term_program {
        Some(name) => {
            let given = match term_program_version {
                Some(text) => text,
                None => "unknown",
            };
            if !same_text(given, "unknown") {
                with_version(name, given, kind)
            } else if !same_text(found, "unknown") {
                with_version(name, found, kind)
            } else {
                let mut line = name.to_owned();
                line.append(" (");
                line.append(kind);
                line.append(")");
                line
            }
        },
        None => {
            if variable_is_set(kitty_pid) {
                with_version("kitty", found, kind)
            } else if variable_is_set(alacritty_log) {
                with_version("alacritty", found, kind)
            } else if variable_is_set(gnome_screen) {
                with_version("gnome-terminal", found, kind)
            } else {
                kind.to_owned()
            }
        },
    }
}

/// Where the font is looked up, given the terminal program in lower case.
pub fn select_font_source(term: Option<&str>, program_lower: Option<&str>) -> (source: FontSource)
    ensures
        source == font_source_for(opt_str(term), opt_str(program_lower)),
{
    match program_lower {
        Some(name) => {
            if same_text(name, "iterm2") {
                FontSource::Iterm2
            } else if same_text(name, "apple_terminal") {
                FontSource::AppleTerminal
            } else {
                FontSource::Resources
            }
        },
        None => {
            let kind = match term {
                Some(text) => text,
                None => "unknown",
            };
            if contains(kind, "kitty") {
                FontSource::Kitty
            } else if contains(kind, "alacritty") {
                FontSource::Alacritty
            } else {
                FontSource::Resources
            }
        },
    }
}

/// Where the font of the terminal is looked up: by the terminal program,
/// whatever its case, where one is set, else by the terminal type.
pub fn font_source(term: Option<&str>, term_program: Option<&str>) -> (source: FontSource)
    ensures
        source == font_source_for(
            opt_str(term),
            match term_program {
                Some(name) => Some(lowercased(name@)),
                None => None,
            },
        ),
{
    match term_program {
        Some(name) => {
            let lower = lowercase(name);
            select_font_source(term, Some(lower.as_str()))
        },
        None => select_font_source(term, None),
    }
}

/// The font in the preferences of iTerm2.
pub fn get_iterm2_font(contents: &str) -> (font: Option<String>)
    ensures
        opt_text(font) == regex_group(ITERM2_FONT_PATTERN@, contents@),
{
    first_group(ITERM2_FONT_PATTERN, contents)
}

/// The font in the preferences of Apple's Terminal.
pub fn get_apple_terminal_font(contents: &str) -> (font: Option<String>)
    ensures
        opt_text(font) == regex_group(APPLE_FONT_PATTERN@, contents@),
{
    first_group(APPLE_FONT_PATTERN, contents)
}

/// The font family in a configuration of kitty: what follows the first space
/// of the first line that begins with `font_family`, without white space and
/// double quotes around it.
pub fn get_kitty_font(contents: &str) -> (font: Option<String>)
    ensures
        opt_text(font) == first_value(Setting::KittyFont, lines(contents@)),
{
    find_setting(Setting::KittyFont, contents)
}

/// The font family in a configuration of Alacritty. In a TOML file it is the
/// quoted value of the first line that begins with `family =` and holds one;
/// in a YAML file, what follows the colon of the first line that begins with
/// `family:`, without white space around it and without double quotes.
pub fn get_alacritty_font(contents: &str, is_toml: bool) -> (font: Option<String>)
    ensures
        opt_text(font) == (if is_toml {
            toml_font(lines(contents@))
        } else {
            first_value(Setting::AlacrittyFont, lines(contents@))
        }),
{
    if !is_toml {
        return find_setting(Setting::AlacrittyFont, contents);
    }
    let found = split_lines(contents);
    let mut i: usize = 0;
    assert(texts(found@).skip(0) =~= texts(found@));
    while i < found.len()
        invariant
            i <= found.len(),
            is_toml,
            texts(found@) == lines(contents@),
            toml_font(lines(contents@)) == toml_font(texts(found@).skip(i as int)),
        decreases found.len() - i,
    {
        let ghost rest = texts(found@).skip(i as int);
        assert(rest.drop_first() =~= texts(found@).skip(i + 1));
        let line = found[i].as_str();
        if starts_with(trim(line).as_str(), "family =") {
            match first_group(QUOTED_PATTERN, line) {
                Some(font) => {
                    return Some(font);
                },
                None => {},
            }
        }
        i += 1;
    }
    None
}

/// The font in an X resources file, or in what the X resource database
/// prints: what follows the colon of the first line that sets the font,
/// without white space and double quotes around it.
pub fn detect_font_from_config(contents: &str, from_database: bool) -> (font: Option<String>)
    ensures
        opt_text(font) == first_value(
            if from_database {
                Setting::DatabaseFont
            } else {
                Setting::ResourcesFont
            },
            lines(contents@),
        ),
{
    if from_database {
        find_setting(Setting::DatabaseFont, contents)
    } else {
        find_setting(Setting::ResourcesFont, contents)
    }
}

/// The font of the terminal as it is shown: the font that was found, or
/// `Unknown`.
pub fn get_terminal_font(font: Option<String>) -> (shown: String)
    ensures
        shown@ == (match font {
            Some(name) => name@,
            None => "Unknown"@,
        }),
{
    crate::facts::value_or(font, "Unknown")
}

/// The pairs about the terminal: the terminal and its font.
pub fn get_terminal_info(terminal: String, font: String) -> (info: Vec<(String, String)>)
    ensures
        pair_texts(info@) == seq![("Terminal"@, terminal@), ("Font"@, font@)],
{
    let mut info: Vec<(String, String)> = Vec::new();
    info.push(pair("Terminal", terminal));
    info.push(pair("Font", font));
    info
}

} // verus!
