use crate::capture::first_group;
use crate::capture::regex_group;
use crate::facts::join_spaced;
use crate::facts::labelled;
use crate::facts::opt_str;
use crate::facts::opt_text;
use crate::facts::output_or;
use crate::facts::pair;
use crate::facts::pair_texts;
use crate::facts::push_wrapped;
use crate::facts::spaced;
use crate::facts::trimmed_output;
use crate::facts::value_or;
use crate::facts::WRAP_WIDTH;
use crate::scan::after_last;
use crate::scan::same_text;
use crate::scan::split_last;
use crate::text::texts;
use crate::wrap::wrap_spec;
use vstd::prelude::*;
use vstd::string::StringExecFns;

verus! {

/// The expression that finds the version in what `bash --version` prints.
pub const BASH_PATTERN: &'static str = r"version (\d+\.\d+\.\d+(?:\(\d+\))?-\w+)";

/// The expression that finds the version in what `zsh --version` prints.
pub const ZSH_PATTERN: &'static str = r"zsh (\d+\.\d+\.\d+)";

/// The expression that finds the version in what `fish --version` prints.
pub const FISH_PATTERN: &'static str = r"version (\d+\.\d+\.\d+)";

/// The expression that finds the version in what any other shell prints.
pub const SHELL_PATTERN: &'static str = r"(\d+\.\d+\.\d+)";

/// The name of a shell: what follows the last slash of its path; the path is
/// taken to be `unknown` where none is set.
pub open spec fn shell_name_of(path: Option<Seq<char>>) -> Seq<char> {
    after_last(
        match path {
            Some(text) => text,
            None => "unknown"@,
        },
        '/',
    )
}

/// The expression that finds the version of the shell with the given name.
pub open spec fn shell_pattern(name: Seq<char>) -> Seq<char> {
    if name == "bash"@ {
        BASH_PATTERN@
    } else if name == "zsh"@ {
        ZSH_PATTERN@
    } else if name == "fish"@ {
        FISH_PATTERN@
    } else {
        SHELL_PATTERN@
    }
}

/// The line about the shell: its name and its version, or `unknown` for a
/// version that was not found.
pub open spec fn shell_line(name: Seq<char>, version: Option<Seq<char>>) -> Seq<char> {
    spaced(
        name,
        match version {
            Some(text) => text,
            None => "unknown"@,
        },
    )
}

/// The names of the package managers that are asked, in the order of the
/// summary.
pub open spec fn manager_names() -> Seq<Seq<char>> {
    seq![
        "dpkg"@,
        "apt"@,
        "pacman"@,
        "yay"@,
        "paru"@,
        "rpm"@,
        "dnf"@,
        "yum"@,
        "zypper"@,
        "emerge"@,
        "nix"@,
        "brew"@,
        "flatpak"@,
        "snap"@,
        "cargo"@,
        "pip"@,
        "npm"@,
        "portage"@,
        "apk"@,
        "xbps"@,
        "pkg"@,
    ]
}

/// The entry of one package manager in the summary: the count it printed and
/// its name in brackets; none where the count is `0` or the manager could not
/// be asked.
pub open spec fn package_entry(name: Seq<char>, output: Option<Seq<char>>) -> Option<Seq<char>> {
    let count = output_or(output, "0"@);
    if count == "0"@ {
        None
    } else {
        Some(count + " ("@ + name + ")"@)
    }
}

/// The entries of the first `n` package managers.
pub open spec fn package_entries(
    names: Seq<Seq<char>>,
    outputs: Seq<Option<String>>,
    n: nat,
) -> Seq<Seq<char>>
    decreases n,
{
    if n == 0 || n > names.len() || n > outputs.len() {
        Seq::<Seq<char>>::empty()
    } else {
        let before = package_entries(names, outputs, (n - 1) as nat);
        match package_entry(names[n - 1], opt_text(outputs[n - 1])) {
            Some(entry) => before.push(entry),
            None => before,
        }
    }
}

/// The parts with the separator between each two of them.
pub open spec fn joined(parts: Seq<Seq<char>>, separator: Seq<char>) -> Seq<char>
    decreases parts.len(),
{
    if parts.len() == 0 {
        Seq::<char>::empty()
    } else if parts.len() == 1 {
        parts[0]
    } else {
        joined(parts.drop_last(), separator) + separator + parts.last()
    }
}

/// The summary of the package counts: the entries with `, ` between them, or
/// a note where there is no entry.
pub open spec fn package_summary(entries: Seq<Seq<char>>) -> Seq<char> {
    if entries.len() == 0 {
        "No packages found"@
    } else {
        joined(entries, ", "@)
    }
}

/// The smaller of two numbers.
pub open spec fn smaller(a: nat, b: nat) -> nat {
    if a <= b {
        a
    } else {
        b
    }
}

/// The name of a shell: what follows the last slash of its path; the path is
/// taken to be `unknown` where none is set.
pub fn shell_name(shell_path: Option<&str>) -> (name: String)
    ensures
        name@ == shell_name_of(opt_str(shell_path)),
{
    match shell_path {
        Some(path) => split_last(path, '/'),
        None => split_last("unknown", '/'),
    }
}

/// The expression that finds the version of the shell with the given name.
pub fn version_pattern(name: &str) -> (pattern: &'static str)
    ensures
        pattern@ == shell_pattern(name@),
{
    if same_text(name, "bash") {
        BASH_PATTERN
    } else if same_text(name, "zsh") {
        ZSH_PATTERN
    } else if same_text(name, "fish") {
        FISH_PATTERN
    } else {
        SHELL_PATTERN
    }
}

/// The line about the shell from its name and the version that was found.
pub fn describe_shell(name: &str, version: Option<String>) -> (line: String)
    ensures
        line@ == shell_line(name@, opt_text(version)),
{
    let shown = value_or(version, "unknown");
    join_spaced(name, shown.as_str())
}

/// The line about the shell from its name and what the shell printed when it
/// was asked for its version; `None` where it could not be asked.
pub fn get_shell_info(name: &str, output: Option<&str>) -> (line: String)
    ensures
        line@ == shell_line(
            name@,
            match output {
                Some(text) => regex_group(shell_pattern(name@), text@),
                None => None,
            },
        ),
{
    let version = match output {
        Some(text) => first_group(version_pattern(name), text),
        None => None,
    };
    describe_shell(name, version)
}

/// The names of the package managers that are asked, in the order of the
/// summary.
pub fn package_manager_names() -> (names: Vec<String>)
    ensures
        texts(names@) == manager_names(),
{
    let mut names: Vec<String> = Vec::new();
    names.push("dpkg".to_owned());
    names.push("apt".to_owned());
    names.push("pacman".to_owned());
    names.push("yay".to_owned());
    names.push("paru".to_owned());
    names.push("rpm".to_owned());
    names.push("dnf".to_owned());
    names.push("yum".to_owned());
    names.push("zypper".to_owned());
    names.push("emerge".to_owned());
    names.push("nix".to_owned());
    names.push("brew".to_owned());
    names.push("flatpak".to_owned());
    names.push("snap".to_owned());
    names.push("cargo".to_owned());
    names.push("pip".to_owned());
    names.push("npm".to_owned());
    names.push("portage".to_owned());
    names.push("apk".to_owned());
    names.push("xbps".to_owned());
    names.push("pkg".to_owned());
    names
}

/// The entry of one package manager from what its count command printed.
pub fn make_package_entry(name: &str, output: Option<&str>) -> (entry: Option<String>)
    ensures
        opt_text(entry) == package_entry(name@, opt_str(output)),
{
    let count = trimmed_output(output, "0");
    if same_text(count.as_str(), "0") {
        None
    } else {
        let mut entry = count;
        entry.append(" (");
        entry.append(name);
        entry.append(")");
        Some(entry)
    }
}

/// The parts with the separator between each two of them.
pub fn join(parts: &[String], separator: &str) -> (r: String)
    ensures
        r@ == joined(texts(parts@), separator@),
{
    let mut r = String::new();
    let mut i: usize = 0;
    while i < parts.len()
        invariant
            i <= parts.len(),
            r@ == joined(texts(parts@).take(i as int), separator@),
        decreases parts.len() - i,
    {
        let ghost head = texts(parts@).take(i + 1);
        assert(head.drop_last() =~= texts(parts@).take(i as int));
        if i > 0 {
            r.append(separator);
        }
        r.append(parts[i].as_str());
        i += 1;
    }
    assert(texts(parts@).take(parts@.len() as int) =~= texts(parts@));
    r
}

/// The summary of the installed packages from what the count command of each
/// package manager printed, in the order of the managers' names; `None` for a
/// command that could not be run. A manager whose count is `0` is left out.
pub fn get_package_count(outputs: &[Option<String>]) -> (summary: String)
    ensures
        summary@ == package_summary(
            package_entries(
                manager_names(),
                outputs@,
                smaller(manager_names().len(), outputs@.len()),
            ),
        ),
{
    let names = package_manager_names();
    let count = if names.len() <= outputs.len() {
        names.len()
    } else {
        outputs.len()
    };
    let mut entries: Vec<String> = Vec::new();
    let mut i: usize = 0;
    while i < count
        invariant
            i <= count,
            count <= names@.len(),
            count <= outputs@.len(),
            texts(names@) == manager_names(),
            texts(entries@) == package_entries(manager_names(), outputs@, i as nat),
        decreases count - i,
    {
        let output: Option<&str> = match &outputs[i] {
            Some(text) => Some(text.as_str()),
            None => None,
        };
        match make_package_entry(names[i].as_str(), output) {
            Some(entry) => {
                entries.push(entry);
            },
            None => {},
        }
        i += 1;
    }
    if entries.len() == 0 {
        "No packages found".to_owned()
    } else {
        join(entries.as_slice(), ", ")
    }
}

/// The pairs about the software: the shell, and the package summary wrapped
/// at 35 bytes with the label on its first line only.
pub fn get_software_info(shell: String, packages: &str) -> (info: Vec<(String, String)>)
    ensures
        pair_texts(info@) == seq![("Shell"@, shell@)] + labelled(
            "Packages"@,
            wrap_spec(packages@, WRAP_WIDTH as nat),
        ),
{
    let mut info: Vec<(String, String)> = Vec::new();
    info.push(pair("Shell", shell));
    push_wrapped(&mut info, "Packages", packages);
    info
}

} // verus!
