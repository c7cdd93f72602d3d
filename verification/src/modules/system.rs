use crate::facts::decimal;
use crate::facts::decimal_string;
use crate::facts::join_spaced;
use crate::facts::pair;
use crate::facts::pair_texts;
use crate::facts::spaced;
use crate::facts::value_or;
use vstd::prelude::*;
use vstd::string::StringExecFns;

verus! {

/// The seconds of an hour.
pub const SECONDS_PER_HOUR: u64 = 3600;

/// The seconds of a minute.
pub const SECONDS_PER_MINUTE: u64 = 60;

/// A fact, or `Unknown` where it could not be found.
pub open spec fn known(fact: Option<String>) -> Seq<char> {
    match fact {
        Some(text) => text@,
        None => "Unknown"@,
    }
}

/// The line about the uptime: the full hours, and the full minutes of the
/// hour that has begun.
pub open spec fn uptime_line(seconds: nat) -> Seq<char> {
    decimal(seconds / 3600) + " hours, "@ + decimal((seconds % 3600) / 60) + " mins"@
}

/// The line about the uptime.
pub fn format_uptime(seconds: u64) -> (line: String)
    ensures
        line@ == uptime_line(seconds as nat),
{
    let hours = seconds / SECONDS_PER_HOUR;
    let minutes = (seconds % SECONDS_PER_HOUR) / SECONDS_PER_MINUTE;
    let mut line = decimal_string(hours);
    line.append(" hours, ");
    let shown = decimal_string(minutes);
    line.append(shown.as_str());
    line.append(" mins");
    line
}

/// The pairs about the system: host, user, operating system with its version,
/// kernel with its version, and uptime. A fact that could not be found is
/// shown as `Unknown`.
pub fn get_system_info(
    hostname: Option<String>,
    username: String,
    os_name: Option<String>,
    os_version: Option<String>,
    kernel_name: Option<String>,
    kernel_version: Option<String>,
    uptime_seconds: u64,
) -> (info: Vec<(String, String)>)
    ensures
        pair_texts(info@) == seq![
            ("Host"@, known(hostname)),
            ("User"@, username@),
            ("OS"@, spaced(known(os_name), known(os_version))),
            ("Kernel"@, spaced(known(kernel_name), known(kernel_version))),
            ("Uptime"@, uptime_line(uptime_seconds as nat)),
        ],
{
    let host = value_or(hostname, "Unknown");
    let os = join_spaced(
        value_or(os_name, "Unknown").as_str(),
        value_or(os_version, "Unknown").as_str(),
    );
    let kernel = join_spaced(
        value_or(kernel_name, "Unknown").as_str(),
        value_or(kernel_version, "Unknown").as_str(),
    );
    let uptime = format_uptime(uptime_seconds);
    let mut info: Vec<(String, String)> = Vec::new();
    info.push(pair("Host", host));
    info.push(pair("User", username));
    info.push(pair("OS", os));
    info.push(pair("Kernel", kernel));
    info.push(pair("Uptime", uptime));
    info
}

} // verus!
