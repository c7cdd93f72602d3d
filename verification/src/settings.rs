use crate::facts::opt_text;
use crate::scan::after_first;
use crate::scan::has_prefix;
use crate::scan::remove_char;
use crate::scan::split_after;
use crate::scan::starts_with;
use crate::scan::stripped_of;
use crate::scan::trim;
use crate::scan::trim_matches;
use crate::scan::trimmed;
use crate::scan::without_char;
use crate::text::lines;
use crate::text::split_lines;
use crate::text::texts;
use vstd::prelude::*;

verus! {

/// The settings that are looked up in configuration text, line by line.
#[derive(Clone, Copy, Debug, PartialEq, Eq, Structural)]
pub enum Setting {
    /// The cursor theme in the configuration of Hyprland.
    HyprlandCursor,
    /// The cursor theme in the settings of GTK 3.
    GtkCursor,
    /// The cursor theme in an X resources file.
    ResourcesCursor,
    /// The font family in the configuration of kitty.
    KittyFont,
    /// The font family in a YAML configuration of Alacritty.
    AlacrittyFont,
    /// The font in an X resources file.
    ResourcesFont,
    /// The font in what the X resource database prints.
    DatabaseFont,
}

/// Whether the line is one that sets the setting: it begins with the
/// setting's key, after white space for every setting but the one that is
/// read from the resource database.
pub open spec fn sets(setting: Setting, line: Seq<char>) -> bool {
    match setting {
        Setting::HyprlandCursor => has_prefix(trimmed(line), "cursor:"@),
        Setting::GtkCursor => has_prefix(trimmed(line), "gtk-cursor-theme-name="@),
        Setting::ResourcesCursor => has_prefix(trimmed(line), "Xcursor.theme:"@),
        Setting::KittyFont => has_prefix(trimmed(line), "font_family"@),
        Setting::AlacrittyFont => has_prefix(trimmed(line), "family:"@),
        Setting::ResourcesFont => has_prefix(trimmed(line), "xterm*font:"@) || has_prefix(
            trimmed(line),
            "*.font:"@,
        ),
        Setting::DatabaseFont => has_prefix(line, "*.font:"@) || has_prefix(
            line,
            "xterm*font:"@,
        ),
    }
}

/// The character after which the value stands in the line.
pub open spec fn separator(setting: Setting) -> char {
    match setting {
        Setting::GtkCursor => '=',
        Setting::KittyFont => ' ',
        _ => ':',
    }
}

/// The value as it is shown, made from what follows the separator.
pub open spec fn cleaned(setting: Setting, raw: Seq<char>) -> Seq<char> {
    match setting {
        Setting::HyprlandCursor => trimmed(stripped_of(trimmed(raw), ',')),
        Setting::GtkCursor => stripped_of(stripped_of(trimmed(raw), '"'), '\''),
        Setting::ResourcesCursor => stripped_of(stripped_of(trimmed(raw), '"'), '\''),
        Setting::AlacrittyFont => without_char(trimmed(raw), '"'),
        _ => stripped_of(trimmed(raw), '"'),
    }
}

/// Whether an empty value is passed over: it is for the cursor themes, where
/// the search then goes on with the next line.
pub open spec fn skips_empty(setting: Setting) -> bool {
    match setting {
        Setting::HyprlandCursor => true,
        Setting::GtkCursor => true,
        Setting::ResourcesCursor => true,
        _ => false,
    }
}

/// The value that one line gives to the setting, if it gives one.
pub open spec fn value_in_line(setting: Setting, line: Seq<char>) -> Option<Seq<char>> {
    if sets(setting, line) {
        match after_first(line, separator(setting)) {
            Some(raw) => if skips_empty(setting) && cleaned(setting, raw).len() == 0 {
                None
            } else {
                Some(cleaned(setting, raw))
            },
            None => None,
        }
    } else {
        None
    }
}

/// The value of the first of the lines that gives the setting one.
pub open spec fn first_value(setting: Setting, text_lines: Seq<Seq<char>>) -> Option<Seq<char>>
    decreases text_lines.len(),
{
    if text_lines.len() == 0 {
        None
    } else {
        match value_in_line(setting, text_lines[0]) {
            Some(value) => Some(value),
            None => first_value(setting, text_lines.drop_first()),
        }
    }
}

/// Whether the line is one that sets the setting.
pub fn line_sets(setting: Setting, line: &str) -> (r: bool)
    ensures
        r == sets(setting, line@),
{
    match setting {
        Setting::HyprlandCursor => starts_with(trim(line).as_str(), "cursor:"),
        Setting::GtkCursor => starts_with(trim(line).as_str(), "gtk-cursor-theme-name="),
        Setting::ResourcesCursor => starts_with(trim(line).as_str(), "Xcursor.theme:"),
        Setting::KittyFont => starts_with(trim(line).as_str(), "font_family"),
        Setting::AlacrittyFont => starts_with(trim(line).as_str(), "family:"),
        Setting::ResourcesFont => {
            let bare = trim(line);
            starts_with(bare.as_str(), "xterm*font:") || starts_with(bare.as_str(), "*.font:")
        },
        Setting::DatabaseFont => starts_with(line, "*.font:") || starts_with(
            line,
            "xterm*font:",
        ),
    }
}

/// The character after which the value stands in the line.
pub fn separator_of(setting: Setting) -> (c: char)
    ensures
        c == separator(setting),
{
    match setting {
        Setting::GtkCursor => '=',
        Setting::KittyFont => ' ',
        _ => ':',
    }
}

/// The value as it is shown, made from what follows the separator.
pub fn clean_value(setting: Setting, raw: &str) -> (value: String)
    ensures
        value@ == cleaned(setting, raw@),
{
    let bare = trim(raw);
    match setting {
        Setting::HyprlandCursor => trim(trim_matches(bare.as_str(), ',').as_str()),
        Setting::GtkCursor => trim_matches(trim_matches(bare.as_str(), '"').as_str(), '\''),
        Setting::ResourcesCursor => trim_matches(
            trim_matches(bare.as_str(), '"').as_str(),
            '\'',
        ),
        Setting::AlacrittyFont => remove_char(bare.as_str(), '"'),
        _ => trim_matches(bare.as_str(), '"'),
    }
}

/// Whether an empty value is passed over.
pub fn passes_empty(setting: Setting) -> (r: bool)
    ensures
        r == skips_empty(setting),
{
    match setting {
        Setting::HyprlandCursor => true,
        Setting::GtkCursor => true,
        Setting::ResourcesCursor => true,
        _ => false,
    }
}

/// The value that one line gives to the setting, if it gives one.
pub fn read_setting(setting: Setting, line: &str) -> (value: Option<String>)
    ensures
        opt_text(value) == value_in_line(setting, line@),
{
    if !line_sets(setting, line) {
        return None;
    }
    match split_after(line, separator_of(setting)) {
        Some(raw) => {
            let value = clean_value(setting, raw.as_str());
            if passes_empty(setting) && value.as_str().is_empty() {
                None
            } else {
                Some(value)
            }
        },
        None => None,
    }
}

/// Looks the setting up in configuration text: the value of the first line
/// that gives it one.
pub fn find_setting(setting: Setting, contents: &str) -> (value: Option<String>)
    ensures
        opt_text(value) == first_value(setting, lines(contents@)),
{
    let found = split_lines(contents);
    let mut i: usize = 0;
    assert(texts(found@).skip(0) =~= texts(found@));
    while i < found.len()
        invariant
            i <= found.len(),
            texts(found@) == lines(contents@),
            first_value(setting, lines(contents@)) == first_value(
                setting,
                texts(found@).skip(i as int),
            ),
        decreases found.len() - i,
    {
        let ghost rest = texts(found@).skip(i as int);
        assert(rest.drop_first() =~= texts(found@).skip(i + 1));
        match read_setting(setting, found[i].as_str()) {
            Some(value) => {
                return Some(value);
            },
            None => {},
        }
        i += 1;
    }
    None
}

} // verus!
