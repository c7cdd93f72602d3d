use fetchbox::modules::hardware::get_battery_info;
use fetchbox::modules::hardware::get_hardware_info;
use fetchbox::modules::hardware::read_battery_line;
use fetchbox::modules::hardware::BatteryFacts;
use fetchbox::modules::network::get_network_info;
use fetchbox::modules::system::format_uptime;
use fetchbox::modules::system::get_system_info;

fn pairs(items: &[(&str, &str)]) -> Vec<(String, String)> {
    items.iter().map(|(label, value)| (label.to_string(), value.to_string())).collect()
}

fn unknown_facts() -> BatteryFacts {
    BatteryFacts {
        native_path: "Unknown".to_string(),
        model: "Unknown".to_string(),
        percentage: "Unknown".to_string(),
        charging: "Unknown".to_string(),
    }
}

#[test]
fn battery_report_is_read() {
    let report = "  native-path:          BAT0\n  vendor:               LGC\n  model:                5B10W13930\n  battery\n    state:               charging\n    percentage:          87%\n";
    assert_eq!(get_battery_info(Some(report)), "BAT0 5B10W13930 - 87% (Char:Yes)");
}

#[test]
fn battery_that_is_not_charging_says_no() {
    let report = "native-path: BAT1...\nmodel: X: Y\nstate: discharging\npercentage: 5%";
    assert_eq!(get_battery_info(Some(report)), "BAT1 X: Y - 5% (Char:No)");
}

#[test]
fn battery_without_path_is_not_found() {
    assert_eq!(get_battery_info(Some("model: X\nstate: charging\n")), "No battery found");
    assert_eq!(get_battery_info(Some("native-path:\n")), "No battery found");
    assert_eq!(get_battery_info(Some("")), "No battery found");
    assert_eq!(get_battery_info(None), "No battery found");
}

#[test]
fn battery_facts_that_are_missing_stay_unknown() {
    assert_eq!(get_battery_info(Some("native-path: BAT0")), "BAT0 Unknown - Unknown (Char:Unknown)");
}

#[test]
fn battery_line_is_read_for_its_first_key() {
    let facts = read_battery_line(unknown_facts(), "native-path: model: percentage:");
    assert_eq!(facts.native_path, "model:");
    assert_eq!(facts.model, "Unknown");
    let facts = read_battery_line(unknown_facts(), "the model: Super  ");
    assert_eq!(facts.model, "Super");
    assert_eq!(facts.native_path, "Unknown");
    let facts = read_battery_line(unknown_facts(), "state:charging");
    assert_eq!(facts.charging, "Yes");
    let facts = read_battery_line(unknown_facts(), "state: fully-charged");
    assert_eq!(facts.charging, "No");
    let facts = read_battery_line(unknown_facts(), "percentage: 100%");
    assert_eq!(facts.percentage, "100%");
    let facts = read_battery_line(unknown_facts(), "energy: 40 Wh");
    assert_eq!(facts.percentage, "Unknown");
}

#[test]
fn hardware_pairs_wrap_long_names() {
    let disks = vec!["10.0G / 100.0G (10%)".to_string(), "1.0G / 2.0G (50%)".to_string()];
    let info = get_hardware_info(
        Some("Intel(R) Core(TM) i7-8565U CPU @ 1.80GHz"),
        "Intel Corporation WhiskeyLake-U GT2 [UHD Graphics 620]",
        "3.2G / 15.5G (21%)".to_string(),
        &disks,
        "No battery found",
    );
    assert_eq!(
        info,
        pairs(&[
            ("CPU", "Intel(R) Core(TM) i7-8565U CPU @"),
            ("", "1.80GHz"),
            ("GPU", "Intel Corporation WhiskeyLake-U GT2"),
            ("", "[UHD Graphics 620]"),
            ("Memory", "3.2G / 15.5G (21%)"),
            ("Disk", "10.0G / 100.0G (10%)"),
            ("Disk", "1.0G / 2.0G (50%)"),
            ("Battery", "No battery found"),
        ])
    );
}

#[test]
fn hardware_pairs_without_processor_and_disks() {
    let info = get_hardware_info(None, "", "m".to_string(), &[], "b");
    assert_eq!(info, pairs(&[("CPU", "Unknown"), ("Memory", "m"), ("Battery", "b")]));
}

#[test]
fn network_shows_the_first_interface_with_traffic() {
    let interfaces = vec![
        ("lo".to_string(), 0, 0),
        ("wlan0".to_string(), 0, 5),
        ("eth0".to_string(), 7, 7),
    ];
    assert_eq!(get_network_info("home", &interfaces), pairs(&[("Network", "home (wlan0)")]));
    let interfaces = vec![("eth0".to_string(), 1, 0)];
    assert_eq!(get_network_info("", &interfaces), pairs(&[("Network", " (eth0)")]));
}

#[test]
fn network_without_traffic_is_no_network() {
    let interfaces = vec![("lo".to_string(), 0, 0)];
    assert_eq!(get_network_info("home", &interfaces), pairs(&[("Network", "No network")]));
    assert_eq!(get_network_info("home", &[]), pairs(&[("Network", "No network")]));
}

#[test]
fn uptime_is_hours_and_minutes() {
    assert_eq!(format_uptime(0), "0 hours, 0 mins");
    assert_eq!(format_uptime(59), "0 hours, 0 mins");
    assert_eq!(format_uptime(60), "0 hours, 1 mins");
    assert_eq!(format_uptime(3599), "0 hours, 59 mins");
    assert_eq!(format_uptime(3725), "1 hours, 2 mins");
    assert_eq!(format_uptime(360000), "100 hours, 0 mins");
}

#[test]
fn system_pairs_show_what_is_known() {
    let info = get_system_info(
        Some("box".to_string()),
        "me".to_string(),
        Some("Ubuntu".to_string()),
        Some("22.04".to_string()),
        Some("Linux".to_string()),
        Some("6.1.0".to_string()),
        7322,
    );
    assert_eq!(
        info,
        pairs(&[
            ("Host", "box"),
            ("User", "me"),
            ("OS", "Ubuntu 22.04"),
            ("Kernel", "Linux 6.1.0"),
            ("Uptime", "2 hours, 2 mins"),
        ])
    );
}

#[test]
fn system_pairs_show_unknown_for_what_is_missing() {
    let info = get_system_info(None, "".to_string(), None, None, None, None, 0);
    assert_eq!(
        info,
        pairs(&[
            ("Host", "Unknown"),
            ("User", ""),
            ("OS", "Unknown Unknown"),
            ("Kernel", "Unknown Unknown"),
            ("Uptime", "0 hours, 0 mins"),
        ])
    );
}
