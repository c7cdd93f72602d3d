use crate::facts::decimal;
use crate::facts::decimal_string;
use crate::facts::opt_str;
use crate::facts::opt_text;
use crate::facts::pair;
use crate::facts::pair_texts;
use crate::modules::terminal::is_set;
use crate::modules::terminal::or_unknown;
use crate::modules::terminal::variable_is_set;
use crate::scan::same_text;
use crate::scan::stripped_of;
use crate::scan::trim;
use crate::scan::trim_matches;
use crate::scan::trimmed;
use crate::settings::find_setting;
use crate::settings::first_value;
use crate::settings::Setting;
use crate::text::lines;
use vstd::prelude::*;
use vstd::string::StringExecFns;

verus! {

/// The compositor whose version is shown with the session.
#[derive(Clone, Copy, Debug, PartialEq, Eq, Structural)]
pub enum Compositor {
    /// Sway runs the session.
    Sway,
    /// Hyprland runs the session.
    Hyprland,
    /// Neither of the two runs the session.
    Neither,
}

/// The compositor of the session: Sway or Hyprland where a Wayland display
/// is set and the environment shows one of them, Sway first.
pub open spec fn compositor_of(
    wayland_display: Option<Seq<char>>,
    sway: bool,
    hyprland: bool,
) -> Compositor {
    if is_set(wayland_display) && sway {
        Compositor::Sway
    } else if is_set(wayland_display) && hyprland {
        Compositor::Hyprland
    } else {
        Compositor::Neither
    }
}

/// A desktop shown as an X11 session.
pub open spec fn x11_session(desktop: Seq<char>) -> Seq<char> {
    desktop + " (X11)"@
}

/// A compositor shown with its version as a Wayland session.
pub open spec fn wayland_session(name: Seq<char>, version: Option<Seq<char>>) -> Seq<char> {
    name + " "@ + or_unknown(version) + " (Wayland)"@
}

/// The line about the window manager or desktop environment.
pub open spec fn session_line(
    wayland_display: Option<Seq<char>>,
    sway: bool,
    hyprland: bool,
    desktop: Option<Seq<char>>,
    display: Option<Seq<char>>,
    version: Option<Seq<char>>,
) -> Seq<char> {
    if is_set(wayland_display) {
        if sway {
            wayland_session("Sway"@, version)
        } else if hyprland {
            wayland_session("Hyprland"@, version)
        } else if desktop is Some {
            x11_session(desktop->0)
        } else {
            "Wayland"@
        }
    } else if is_set(display) && desktop is Some {
        x11_session(desktop->0)
    } else {
        "Unknown"@
    }
}

/// The position of the first primary display, or the number of displays
/// where none is primary.
pub open spec fn first_primary(displays: Seq<(bool, u32, u32)>) -> int
    decreases displays.len(),
{
    if displays.len() == 0 || displays[0].0 {
        0
    } else {
        1 + first_primary(displays.drop_first())
    }
}

/// A resolution written as width, `x` and height.
pub open spec fn resolution(width: nat, height: nat) -> Seq<char> {
    decimal(width) + "x"@ + decimal(height)
}

/// The resolution of the primary display, or of the first display where none
/// is primary; none where there is no display.
pub open spec fn resolution_of(displays: Seq<(bool, u32, u32)>) -> Option<Seq<char>> {
    if displays.len() == 0 {
        None
    } else if first_primary(displays) < displays.len() {
        Some(
            resolution(
                displays[first_primary(displays)].1 as nat,
                displays[first_primary(displays)].2 as nat,
            ),
        )
    } else {
        Some(resolution(displays[0].1 as nat, displays[0].2 as nat))
    }
}

/// The line about the resolution: the one found from the displays, else what
/// `xrandr` printed if that is not empty, else `Unknown`.
pub open spec fn resolution_line(found: Option<Seq<char>>, xrandr: Option<Seq<char>>) -> Seq<
    char,
> {
    match found {
        Some(text) => text,
        None => match xrandr {
            Some(output) => if trimmed(output).len() > 0 {
                trimmed(output)
            } else {
                "Unknown"@
            },
            None => "Unknown"@,
        },
    }
}

/// The theme in the text of a configuration, if the text could be read.
pub open spec fn theme_in(setting: Setting, contents: Option<Seq<char>>) -> Option<Seq<char>> {
    match contents {
        Some(text) => first_value(setting, lines(text)),
        None => None,
    }
}

/// The theme that the desktop settings report: what was printed, without
/// white space and single quotes around it, unless that is `Unknown`.
pub open spec fn reported_theme(output: Option<Seq<char>>) -> Option<Seq<char>> {
    match output {
        Some(text) => if stripped_of(trimmed(text), '\'') != "Unknown"@ {
            Some(stripped_of(trimmed(text), '\''))
        } else {
            None
        },
        None => None,
    }
}

/// The first of two optional values that is there.
pub open spec fn or_else(first: Option<Seq<char>>, second: Option<Seq<char>>) -> Option<
    Seq<char>,
> {
    match first {
        Some(text) => Some(text),
        None => second,
    }
}

/// The cursor theme. In a Wayland session the configuration of Hyprland is
/// asked first, where Hyprland runs, and then the environment. Otherwise, and
/// where these give nothing, the settings of GTK, the X resources, the
/// environment and the desktop settings are asked in this order. `Unknown`
/// where none of them gives a theme.
pub open spec fn cursor_theme(
    wayland_display: Option<Seq<char>>,
    hyprland: bool,
    hyprland_config: Option<Seq<char>>,
    from_environment: Option<Seq<char>>,
    gtk_settings: Option<Seq<char>>,
    resources: Option<Seq<char>>,
    desktop_settings: Option<Seq<char>>,
) -> Seq<char> {
    let in_session = if is_set(wayland_display) {
        or_else(
            if hyprland {
                theme_in(Setting::HyprlandCursor, hyprland_config)
            } else {
                None
            },
            from_environment,
        )
    } else {
        None
    };
    let found = or_else(
        in_session,
        or_else(
            theme_in(Setting::GtkCursor, gtk_settings),
            or_else(
                theme_in(Setting::ResourcesCursor, resources),
                or_else(from_environment, reported_theme(desktop_settings)),
            ),
        ),
    );
    match found {
        Some(theme) => theme,
        None => "Unknown"@,
    }
}

/// The compositor of the session, which tells whose version is to be asked.
pub fn compositor(wayland_display: Option<&str>, sway: bool, hyprland: bool) -> (found: Compositor)
    ensures
        found == compositor_of(opt_str(wayland_display), sway, hyprland),
{
    if variable_is_set(wayland_display) && sway {
        Compositor::Sway
    } else if variable_is_set(wayland_display) && hyprland {
        Compositor::Hyprland
    } else {
        Compositor::Neither
    }
}

/// A compositor shown with its version as a Wayland session.
pub fn describe_wayland(name: &str, version: Option<&str>) -> (line: String)
    ensures
        line@ == wayland_session(name@, opt_str(version)),
{
    let mut line = name.to_owned();
    line.append(" ");
    line.append(
        match version {
            Some(text) => text,
            None => "unknown",
        },
    );
    line.append(" (Wayland)");
    line
}

/// A desktop shown as an X11 session.
pub fn describe_x11(desktop: &str) -> (line: String)
    ensures
        line@ == x11_session(desktop@),
{
    let mut line = desktop.to_owned();
    line.append(" (X11)");
    line
}

/// The line about the window manager or desktop environment, from the
/// environment and the version of the compositor. `sway` and `hyprland` say
/// whether the environment shows the socket of Sway and the signature of
/// Hyprland.
pub fn get_wm_de(
    wayland_display: Option<&str>,
    sway: bool,
    hyprland: bool,
    desktop: Option<&str>,
    display: Option<&str>,
    version: Option<&str>,
) -> (line: String)
    ensures
        line@ == session_line(
            opt_str(wayland_display),
            sway,
            hyprland,
            opt_str(desktop),
            opt_str(display),
            opt_str(version),
        ),
{
    if variable_is_set(wayland_display) {
        if sway {
            return describe_wayland("Sway", version);
        }
        if hyprland {
            return describe_wayland("Hyprland", version);
        }
        return match desktop {
            Some(name) => describe_x11(name),
            None => "Wayland".to_owned(),
        };
    }
    if variable_is_set(display) {
        match desktop {
            Some(name) => {
                return describe_x11(name);
            },
            None => {},
        }
    }
    "Unknown".to_owned()
}

/// The resolution of the primary display, or of the first display where none
/// is primary. Each display comes as whether it is primary, its width and its
/// height.
pub fn display_resolution(displays: &[(bool, u32, u32)]) -> (found: Option<String>)
    ensures
        opt_text(found) == resolution_of(displays@),
{
    if displays.len() == 0 {
        return None;
    }
    let mut i: usize = 0;
    assert(displays@.skip(0) =~= displays@);
    while i < displays.len() && !displays[i].0
        invariant
            i <= displays.len(),
            first_primary(displays@) == i + first_primary(displays@.skip(i as int)),
        decreases displays.len() - i,
    {
        assert(displays@.skip(i as int).drop_first() =~= displays@.skip(i + 1));
        i += 1;
    }
    let chosen = if i < displays.len() {
        i
    } else {
        0
    };
    let mut line = decimal_string(displays[chosen].1 as u64);
    line.append("x");
    let height = decimal_string(displays[chosen].2 as u64);
    line.append(height.as_str());
    Some(line)
}

/// The line about the resolution: the one found from the displays, else what
/// `xrandr` printed if it succeeded and printed something, else `Unknown`.
pub fn get_screen_resolution(found: Option<String>, xrandr: Option<&str>) -> (line: String)
    ensures
        line@ == resolution_line(opt_text(found), opt_str(xrandr)),
{
    match found {
        Some(text) => text,
        None => {
            match xrandr {
                Some(output) => {
                    let shown = trim(output);
                    if !shown.as_str().is_empty() {
                        shown
                    } else {
                        "Unknown".to_owned()
                    }
                },
                None => "Unknown".to_owned(),
            }
        },
    }
}

/// The theme in the text of a configuration, if the text could be read.
pub fn find_theme(setting: Setting, contents: Option<&str>) -> (theme: Option<String>)
    ensures
        opt_text(theme) == theme_in(setting, opt_str(contents)),
{
    match contents {
        Some(text) => find_setting(setting, text),
        None => None,
    }
}

/// The theme that the desktop settings report.
pub fn read_reported_theme(output: Option<&str>) -> (theme: Option<String>)
    ensures
        opt_text(theme) == reported_theme(opt_str(output)),
{
    match output {
        Some(text) => {
            let shown = trim_matches(trim(text).as_str(), '\'');
            if !same_text(shown.as_str(), "Unknown") {
                Some(shown)
            } else {
                None
            }
        },
        None => None,
    }
}

/// The cursor theme, from what the sources hold: the configuration of
/// Hyprland, the variable of the environment, the settings of GTK, the X
/// resources and what the desktop settings printed. A source that could not
/// be read is `None`.
pub fn get_cursor_theme(
    wayland_display: Option<&str>,
    hyprland: bool,
    hyprland_config: Option<&str>,
    from_environment: Option<&str>,
    gtk_settings: Option<&str>,
    resources: Option<&str>,
    desktop_settings: Option<&str>,
) -> (theme: String)
    ensures
        theme@ == cursor_theme(
            opt_str(wayland_display),
            hyprland,
            opt_str(hyprland_config),
            opt_str(from_environment),
            opt_str(gtk_settings),
            opt_str(resources),
            opt_str(desktop_settings),
        ),
{
    if variable_is_set(wayland_display) {
        if hyprland {
            match find_theme(Setting::HyprlandCursor, hyprland_config) {
                Some(theme) => {
                    return theme;
                },
                None => {},
            }
        }
        match from_environment {
            Some(theme) => {
                return theme.to_owned();
            },
            None => {},
        }
    }
    match find_theme(Setting::GtkCursor, gtk_settings) {
        Some(theme) => {
            return theme;
        },
        None => {},
    }
    match find_theme(Setting::ResourcesCursor, resources) {
        Some(theme) => {
            return theme;
        },
        None => {},
    }
    match from_environment {
        Some(theme) => {
            return theme.to_owned();
        },
        None => {},
    }
    match read_reported_theme(desktop_settings) {
        Some(theme) => theme,
        None => "Unknown".to_owned(),
    }
}

/// The pairs about the display: window manager or desktop, swap, machine
/// architecture, cursor theme and resolution.
pub fn get_display_info(
    wm_de: String,
    swap: String,
    architecture: String,
    cursor: String,
    resolution: String,
) -> (info: Vec<(String, String)>)
    ensures
        pair_texts(info@) == seq![
            ("WM/DE"@, wm_de@),
            ("Swap"@, swap@),
            ("Arch"@, architecture@),
            ("Cursor"@, cursor@),
            ("Resolution"@, resolution@),
        ],
{
    let mut info: Vec<(String, String)> = Vec::new();
    info.push(pair("WM/DE", wm_de));
    info.push(pair("Swap", swap));
    info.push(pair("Arch", architecture));
    info.push(pair("Cursor", cursor));
    info.push(pair("Resolution", resolution));
    info
}

} // verus!
