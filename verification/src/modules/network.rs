use crate::facts::pair;
use crate::facts::pair_texts;
use vstd::prelude::*;
use vstd::string::StringExecFns;

verus! {

/// An interface that has carried traffic: it has received or sent something.
pub open spec fn is_active(interface: (String, u64, u64)) -> bool {
    interface.1 > 0 || interface.2 > 0
}

/// The position of the first active interface, or the number of interfaces
/// where none is active.
pub open spec fn first_active(interfaces: Seq<(String, u64, u64)>) -> int
    decreases interfaces.len(),
{
    if interfaces.len() == 0 || is_active(interfaces[0]) {
        0
    } else {
        1 + first_active(interfaces.drop_first())
    }
}

/// The line about the network: the name of the wireless network and, in
/// brackets, the first active interface; a note where no interface is active.
pub open spec fn network_line(ssid: Seq<char>, interfaces: Seq<(String, u64, u64)>) -> Seq<char> {
    if first_active(interfaces) < interfaces.len() {
        ssid + " ("@ + interfaces[first_active(interfaces)].0@ + ")"@
    } else {
        "No network"@
    }
}

/// The pair about the network. Each interface comes with its name and the
/// bytes it has received and sent, in the order in which the system lists
/// them; the first one that has carried traffic is shown.
pub fn get_network_info(ssid: &str, interfaces: &[(String, u64, u64)]) -> (info: Vec<
    (String, String),
>)
    ensures
        pair_texts(info@) == seq![("Network"@, network_line(ssid@, interfaces@))],
{
    let mut i: usize = 0;
    assert(interfaces@.skip(0) =~= interfaces@);
    while i < interfaces.len() && !(interfaces[i].1 > 0 || interfaces[i].2 > 0)
        invariant
            i <= interfaces.len(),
            first_active(interfaces@) == i + first_active(interfaces@.skip(i as int)),
        decreases interfaces.len() - i,
    {
        assert(interfaces@.skip(i as int).drop_first() =~= interfaces@.skip(i + 1));
        i += 1;
    }
    let line = if i < interfaces.len() {
        let mut line = ssid.to_owned();
        line.append(" (");
        line.append(interfaces[i].0.as_str());
        line.append(")");
        line
    } else {
        "No network".to_owned()
    };
    let mut info: Vec<(String, String)> = Vec::new();
    info.push(pair("Network", line));
    info
}

} // verus!
