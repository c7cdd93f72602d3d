use crate::facts::labelled;
use crate::facts::opt_str;
use crate::facts::pair;
use crate::facts::pair_texts;
use crate::facts::push_wrapped;
use crate::facts::WRAP_WIDTH;
use crate::scan::after_first;
use crate::scan::contains;
use crate::scan::has_text;
use crate::scan::same_text;
use crate::scan::split_after;
use crate::scan::trim;
use crate::scan::trim_end_matches;
use crate::scan::trimmed;
use crate::scan::without_suffix;
use crate::text::lines;
use crate::text::split_lines;
use crate::text::split_words;
use crate::text::texts;
use crate::text::words;
use crate::wrap::wrap_spec;
use vstd::prelude::*;
use vstd::string::StringExecFns;

verus! {

/// What is known of the battery while its report is read.
pub struct BatteryFacts {
    /// The name of the battery in the system.
    pub native_path: String,
    /// The model of the battery.
    pub model: String,
    /// The charge, as the report writes it.
    pub percentage: String,
    /// `Yes` where the battery is charging, `No` where it is not.
    pub charging: String,
}

/// The four facts as texts.
pub open spec fn facts_text(facts: BatteryFacts) -> (Seq<char>, Seq<char>, Seq<char>, Seq<char>) {
    (facts.native_path@, facts.model@, facts.percentage@, facts.charging@)
}

/// What is known before the first line is read.
pub open spec fn no_facts() -> (Seq<char>, Seq<char>, Seq<char>, Seq<char>) {
    ("Unknown"@, "Unknown"@, "Unknown"@, "Unknown"@)
}

/// What follows the first colon of a line, without the white space around
/// it; the value before where the line has no colon.
pub open spec fn field_value(line: Seq<char>, before: Seq<char>) -> Seq<char> {
    match after_first(line, ':') {
        Some(rest) => trimmed(rest),
        None => before,
    }
}

/// The facts after one more line of the report. A line is read for the first
/// of the four keys that it holds: the native path is its second word without
/// the dots at its end, model and percentage are what follows the colon, and
/// the state is `Yes` for `charging` and `No` for anything else.
pub open spec fn read_line(
    facts: (Seq<char>, Seq<char>, Seq<char>, Seq<char>),
    line: Seq<char>,
) -> (Seq<char>, Seq<char>, Seq<char>, Seq<char>) {
    if has_text(line, "native-path:"@) {
        if words(line).len() > 1 {
            (without_suffix(words(line)[1], "..."@), facts.1, facts.2, facts.3)
        } else {
            facts
        }
    } else if has_text(line, "model:"@) {
        (facts.0, field_value(line, facts.1), facts.2, facts.3)
    } else if has_text(line, "percentage:"@) {
        (facts.0, facts.1, field_value(line, facts.2), facts.3)
    } else if has_text(line, "state:"@) {
        match after_first(line, ':') {
            Some(rest) => (
                facts.0,
                facts.1,
                facts.2,
                if trimmed(rest) == "charging"@ {
                    "Yes"@
                } else {
                    "No"@
                },
            ),
            None => facts,
        }
    } else {
        facts
    }
}

/// The facts after all the given lines, read in order.
pub open spec fn read_lines(report: Seq<Seq<char>>) -> (
    Seq<char>,
    Seq<char>,
    Seq<char>,
    Seq<char>,
)
    decreases report.len(),
{
    if report.len() == 0 {
        no_facts()
    } else {
        read_line(read_lines(report.drop_last()), report.last())
    }
}

/// The line about the battery: path, model, percentage and whether it is
/// charging, or a note where no path was found.
pub open spec fn battery_line(facts: (Seq<char>, Seq<char>, Seq<char>, Seq<char>)) -> Seq<char> {
    if facts.0 != "Unknown"@ {
        facts.0 + " "@ + facts.1 + " - "@ + facts.2 + " (Char:"@ + facts.3 + ")"@
    } else {
        "No battery found"@
    }
}

/// The line about the battery for a report, or for none.
pub open spec fn battery_summary(report: Option<Seq<char>>) -> Seq<char> {
    match report {
        Some(text) => battery_line(read_lines(lines(text))),
        None => "No battery found"@,
    }
}

/// The pairs for the disks: one pair with the label `Disk` for each.
pub open spec fn disk_pairs(disks: Seq<String>) -> Seq<(Seq<char>, Seq<char>)> {
    Seq::new(disks.len(), |i: int| ("Disk"@, disks[i]@))
}

/// The name of the first processor, or `Unknown` where there is none.
pub open spec fn cpu_name(brand: Option<Seq<char>>) -> Seq<char> {
    match brand {
        Some(text) => text,
        None => "Unknown"@,
    }
}

/// Reads one line of the battery report into the facts.
pub fn read_battery_line(facts: BatteryFacts, line: &str) -> (next: BatteryFacts)
    ensures
        facts_text(next) == read_line(facts_text(facts), line@),
{
    let mut next = facts;
    if contains(line, "native-path:") {
        let parts = split_words(line);
        if parts.len() > 1 {
            next.native_path = trim_end_matches(parts[1].as_str(), "...");
        }
    } else if contains(line, "model:") {
        match split_after(line, ':') {
            Some(rest) => {
                next.model = trim(rest.as_str());
            },
            None => {},
        }
    } else if contains(line, "percentage:") {
        match split_after(line, ':') {
            Some(rest) => {
                next.percentage = trim(rest.as_str());
            },
            None => {},
        }
    } else if contains(line, "state:") {
        match split_after(line, ':') {
            Some(rest) => {
                let state = trim(rest.as_str());
                next.charging = if same_text(state.as_str(), "charging") {
                    "Yes".to_owned()
                } else {
                    "No".to_owned()
                };
            },
            None => {},
        }
    }
    next
}

/// The line about the battery from what `upower` reported; `None` where it
/// could not be asked.
pub fn get_battery_info(report: Option<&str>) -> (line: String)
    ensures
        line@ == battery_summary(opt_str(report)),
{
    match report {
        None => "No battery found".to_owned(),
        Some(text) => {
            let found = split_lines(text);
            let mut facts = BatteryFacts {
                native_path: "Unknown".to_owned(),
                model: "Unknown".to_owned(),
                percentage: "Unknown".to_owned(),
                charging: "Unknown".to_owned(),
            };
            let mut i: usize = 0;
            while i < found.len()
                invariant
                    i <= found.len(),
                    facts_text(facts) == read_lines(texts(found@).take(i as int)),
                decreases found.len() - i,
            {
                let ghost head = texts(found@).take(i + 1);
                assert(head.drop_last() =~= texts(found@).take(i as int));
                facts = read_battery_line(facts, found[i].as_str());
                i += 1;
            }
            assert(texts(found@).take(found@.len() as int) =~= texts(found@));
            if same_text(facts.native_path.as_str(), "Unknown") {
                "No battery found".to_owned()
            } else {
                let mut line = facts.native_path;
                line.append(" ");
                line.append(facts.model.as_str());
                line.append(" - ");
                line.append(facts.percentage.as_str());
                line.append(" (Char:");
                line.append(facts.charging.as_str());
                line.append(")");
                line
            }
        },
    }
}

/// The pairs about the hardware: processor, graphics and battery wrapped at
/// 35 bytes with the label on the first line only, the memory, and one pair
/// for each disk.
pub fn get_hardware_info(
    cpu_brand: Option<&str>,
    gpu: &str,
    memory: String,
    disks: &[String],
    battery: &str,
) -> (info: Vec<(String, String)>)
    ensures
        pair_texts(info@) == labelled(
            "CPU"@,
            wrap_spec(cpu_name(opt_str(cpu_brand)), WRAP_WIDTH as nat),
        ) + labelled("GPU"@, wrap_spec(gpu@, WRAP_WIDTH as nat)) + seq![("Memory"@, memory@)]
            + disk_pairs(disks@) + labelled("Battery"@, wrap_spec(battery@, WRAP_WIDTH as nat)),
{
    let mut info: Vec<(String, String)> = Vec::new();
    let cpu = match cpu_brand {
        Some(text) => text,
        None => "Unknown",
    };
    push_wrapped(&mut info, "CPU", cpu);
    push_wrapped(&mut info, "GPU", gpu);
    info.push(pair("Memory", memory));
    let ghost front = pair_texts(info@);
    let ghost wanted = disk_pairs(disks@);
    let mut i: usize = 0;
    while i < disks.len()
        invariant
            i <= disks.len(),
            wanted == disk_pairs(disks@),
            pair_texts(info@) == front + wanted.take(i as int),
        decreases disks.len() - i,
    {
        let ghost before = pair_texts(info@);
        info.push(pair("Disk", disks[i].clone()));
        assert(pair_texts(info@) =~= before.push(wanted[i as int]));
        i += 1;
    }
    push_wrapped(&mut info, "Battery", battery);
    info
}

} // verus!
