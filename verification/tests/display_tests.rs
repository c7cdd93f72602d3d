use fetchbox::modules::display::compositor;
use fetchbox::modules::display::display_resolution;
use fetchbox::modules::display::find_theme;
use fetchbox::modules::display::get_cursor_theme;
use fetchbox::modules::display::get_display_info;
use fetchbox::modules::display::get_screen_resolution;
use fetchbox::modules::display::get_wm_de;
use fetchbox::modules::display::read_reported_theme;
use fetchbox::modules::display::Compositor;
use fetchbox::settings::find_setting;
use fetchbox::settings::read_setting;
use fetchbox::settings::Setting;

fn pairs(items: &[(&str, &str)]) -> Vec<(String, String)> {
    items.iter().map(|(label, value)| (label.to_string(), value.to_string())).collect()
}

#[test]
fn display_pairs_have_their_labels() {
    let info = get_display_info(
        "Sway 1.8 (Wayland)".to_string(),
        "0.0 MiB / 2048.0 MiB".to_string(),
        "x86_64".to_string(),
        "Adwaita".to_string(),
        "1920x1080".to_string(),
    );
    assert_eq!(
        info,
        pairs(&[
            ("WM/DE", "Sway 1.8 (Wayland)"),
            ("Swap", "0.0 MiB / 2048.0 MiB"),
            ("Arch", "x86_64"),
            ("Cursor", "Adwaita"),
            ("Resolution", "1920x1080"),
        ])
    );
}

#[test]
fn compositor_needs_a_wayland_display() {
    assert_eq!(compositor(Some("wayland-1"), true, true), Compositor::Sway);
    assert_eq!(compositor(Some("wayland-1"), false, true), Compositor::Hyprland);
    assert_eq!(compositor(Some("wayland-1"), false, false), Compositor::Neither);
    assert_eq!(compositor(Some(""), true, true), Compositor::Neither);
    assert_eq!(compositor(None, true, false), Compositor::Neither);
}

#[test]
fn session_is_named_after_compositor_or_desktop() {
    assert_eq!(
        get_wm_de(Some("wayland-1"), true, true, Some("sway"), Some(":0"), Some("1.8.1")),
        "Sway 1.8.1 (Wayland)"
    );
    assert_eq!(
        get_wm_de(Some("wayland-1"), true, false, None, None, None),
        "Sway unknown (Wayland)"
    );
    assert_eq!(
        get_wm_de(Some("wayland-1"), false, true, None, None, Some("0.34")),
        "Hyprland 0.34 (Wayland)"
    );
    assert_eq!(
        get_wm_de(Some("wayland-1"), false, false, Some("GNOME"), None, None),
        "GNOME (X11)"
    );
    assert_eq!(get_wm_de(Some("wayland-1"), false, false, None, Some(":0"), None), "Wayland");
    assert_eq!(get_wm_de(Some(""), true, true, Some("KDE"), Some(":0"), None), "KDE (X11)");
    assert_eq!(get_wm_de(None, false, false, Some("KDE"), Some(""), None), "Unknown");
    assert_eq!(get_wm_de(None, false, false, None, Some(":0"), None), "Unknown");
    assert_eq!(get_wm_de(None, true, true, Some("KDE"), None, Some("1")), "Unknown");
}

#[test]
fn resolution_is_that_of_the_primary_display() {
    assert_eq!(
        display_resolution(&[(false, 1280, 720), (true, 1920, 1080), (true, 800, 600)]),
        Some("1920x1080".to_string())
    );
    assert_eq!(
        display_resolution(&[(false, 1280, 720), (false, 1920, 1080)]),
        Some("1280x720".to_string())
    );
    assert_eq!(display_resolution(&[(true, 0, 4294967295)]), Some("0x4294967295".to_string()));
    assert_eq!(display_resolution(&[]), None);
}

#[test]
fn resolution_falls_back_to_xrandr_and_to_unknown() {
    assert_eq!(get_screen_resolution(Some("1x2".to_string()), Some("3x4")), "1x2");
    assert_eq!(get_screen_resolution(None, Some(" 3x4\n")), "3x4");
    assert_eq!(get_screen_resolution(None, Some(" \n")), "Unknown");
    assert_eq!(get_screen_resolution(None, None), "Unknown");
}

#[test]
fn cursor_theme_is_read_from_configuration_lines() {
    let hypr = "general {\n  cursor: , ,\n  cursor:  Bibata , \n}";
    assert_eq!(find_setting(Setting::HyprlandCursor, hypr), Some("Bibata".to_string()));
    let gtk = "[Settings]\ngtk-cursor-theme-name=\"\"\n gtk-cursor-theme-name = 'Breeze'\ngtk-cursor-theme-name=Last";
    assert_eq!(find_setting(Setting::GtkCursor, gtk), Some("Last".to_string()));
    let gtk = "gtk-cursor-theme-name=\"'Breeze'\"\n";
    assert_eq!(find_setting(Setting::GtkCursor, gtk), Some("Breeze".to_string()));
    let resources = "Xft.dpi: 96\nXcursor.theme: \"Adwaita\"\nXcursor.size: 24";
    assert_eq!(find_setting(Setting::ResourcesCursor, resources), Some("Adwaita".to_string()));
    assert_eq!(find_setting(Setting::ResourcesCursor, "Xcursor.size: 24"), None);
    assert_eq!(find_setting(Setting::ResourcesCursor, ""), None);
}

#[test]
fn setting_is_read_from_one_line() {
    assert_eq!(read_setting(Setting::HyprlandCursor, "cursor: x:y,"), Some("x:y".to_string()));
    assert_eq!(read_setting(Setting::HyprlandCursor, "cursor:"), None);
    assert_eq!(read_setting(Setting::HyprlandCursor, "# cursor: x"), None);
    assert_eq!(read_setting(Setting::KittyFont, "font_family Fira Code"), Some("Fira Code".to_string()));
    assert_eq!(read_setting(Setting::KittyFont, "font_family"), None);
    assert_eq!(read_setting(Setting::KittyFont, "font_family "), Some("".to_string()));
    assert_eq!(
        read_setting(Setting::KittyFont, "  font_family Fira"),
        Some("font_family Fira".to_string())
    );
    assert_eq!(
        read_setting(Setting::AlacrittyFont, "  family: \"Fira\" \"Code\""),
        Some("Fira Code".to_string())
    );
    assert_eq!(
        read_setting(Setting::ResourcesFont, " xterm*font: \"fixed\" "),
        Some("fixed".to_string())
    );
    assert_eq!(read_setting(Setting::ResourcesFont, "*.font: 7x13"), Some("7x13".to_string()));
    assert_eq!(read_setting(Setting::DatabaseFont, " *.font: 7x13"), None);
    assert_eq!(read_setting(Setting::DatabaseFont, "*.font:\t7x13"), Some("7x13".to_string()));
    assert_eq!(read_setting(Setting::DatabaseFont, "xterm*font:"), Some("".to_string()));
}

#[test]
fn theme_is_looked_up_where_the_text_could_be_read() {
    assert_eq!(find_theme(Setting::GtkCursor, None), None);
    assert_eq!(
        find_theme(Setting::GtkCursor, Some("gtk-cursor-theme-name=A")),
        Some("A".to_string())
    );
    assert_eq!(read_reported_theme(Some("'Yaru'\n")), Some("Yaru".to_string()));
    assert_eq!(read_reported_theme(Some("Unknown\n")), None);
    assert_eq!(read_reported_theme(Some("")), Some("".to_string()));
    assert_eq!(read_reported_theme(None), None);
}

#[test]
fn cursor_theme_sources_are_asked_in_order() {
    let hypr = Some("cursor: H");
    let gtk = Some("gtk-cursor-theme-name=G");
    let resources = Some("Xcursor.theme: X");
    let reported = Some("'R'\n");
    assert_eq!(
        get_cursor_theme(Some("wayland-1"), true, hypr, Some("E"), gtk, resources, reported),
        "H"
    );
    assert_eq!(
        get_cursor_theme(Some("wayland-1"), false, hypr, Some("E"), gtk, resources, reported),
        "E"
    );
    assert_eq!(
        get_cursor_theme(Some("wayland-1"), true, Some("x"), None, gtk, resources, reported),
        "G"
    );
    assert_eq!(get_cursor_theme(None, true, hypr, Some("E"), gtk, resources, reported), "G");
    assert_eq!(get_cursor_theme(Some(""), true, hypr, Some("E"), None, resources, reported), "X");
    assert_eq!(get_cursor_theme(None, false, None, Some("E"), None, None, reported), "E");
    assert_eq!(get_cursor_theme(None, false, None, Some(""), None, None, reported), "");
    assert_eq!(get_cursor_theme(None, false, None, None, None, None, reported), "R");
    assert_eq!(get_cursor_theme(None, false, None, None, None, None, Some("Unknown")), "Unknown");
    assert_eq!(get_cursor_theme(None, false, None, None, None, None, None), "Unknown");
}
