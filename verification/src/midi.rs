use vstd::prelude::*;

verus! {

/// How long the transport waits before it looks for the device again, in
/// milliseconds.
pub const POLL_INTERVAL_MS: u64 = 5000;

/// What the transport tells the dispatcher.
#[derive(Clone, Copy, Debug, PartialEq, Eq, Structural)]
pub enum MidiMessage {
    /// The device was found.
    Connected,
    /// An event of the device: channel, identifier of the control, value.
    Data(u8, u8, u8),
}

/// Whether `needle` occurs in `hay` as a run of consecutive characters.
pub open spec fn occurs_in(needle: Seq<char>, hay: Seq<char>) -> bool {
    exists|at: int|
        0 <= at <= hay.len() - needle.len() && #[trigger] hay.subrange(at, at + needle.len())
            == needle
}

/// Whether a port is the device's: its name is known and `device` occurs in
/// it.
pub open spec fn names_device(name: Option<String>, device: Seq<char>) -> bool {
    name matches Some(text) && occurs_in(device, text@)
}

/// Whether `index` is the first port of `names` that is the device's.
pub open spec fn is_first_match(names: Seq<Option<String>>, device: Seq<char>, index: int) -> bool {
    &&& 0 <= index < names.len()
    &&& names_device(names[index], device)
    &&& forall|earlier: int| 0 <= earlier < index ==> !names_device(#[trigger] names[earlier], device)
}

/// Whether no port of `names` is the device's.
pub open spec fn no_match(names: Seq<Option<String>>, device: Seq<char>) -> bool {
    forall|index: int| 0 <= index < names.len() ==> !names_device(#[trigger] names[index], device)
}

/// `str::contains` with a string as the pattern: whether `needle` matches a
/// sub-slice of `hay`. Both hold whole characters only, so a sub-slice that
/// matches begins and ends between characters.
#[verifier::external_body]
fn contains(hay: &str, needle: &str) -> (found: bool)
    ensures
        found == occurs_in(needle@, hay@),
{
    hay.contains(needle)
}

/// Looks for the device among the ports that the system lists. `port_names`
/// holds the name of each port in the system's order, `None` where the
/// system would not tell it. The result is the index of the first port whose
/// name contains `device_name`.
pub fn find_port(device_name: &str, port_names: &Vec<Option<String>>) -> (port: Option<usize>)
    ensures
        match port {
            Some(index) => is_first_match(port_names@, device_name@, index as int),
            None => no_match(port_names@, device_name@),
        },
{
    let mut i: usize = 0;
    while i < port_names.len()
        invariant
            i <= port_names.len(),
            forall|earlier: int|
                0 <= earlier < i ==> !names_device(#[trigger] port_names@[earlier], device_name@),
        decreases port_names.len() - i,
    {
        match &port_names[i] {
            Some(name) => {
                if contains(name.as_str(), device_name) {
                    return Some(i);
                }
            },
            None => {},
        }
        i += 1;
    }
    None
}

/// What the transport does next while it looks for the device.
#[derive(Clone, Copy, Debug, PartialEq, Eq, Structural)]
pub enum Discovery {
    /// The device is there: tell the dispatcher `announce`, then open the
    /// port at index `port` and listen.
    Connect { port: usize, announce: MidiMessage },
    /// The device is not there yet, which is no failure: wait so many
    /// milliseconds and look again.
    Retry(u64),
}

/// Decides the next step of the search from the ports that the system lists
/// now: connect to the first port of the device, or look again after
/// `POLL_INTERVAL_MS`. The search never gives up.
pub fn discover(device_name: &str, port_names: &Vec<Option<String>>) -> (step: Discovery)
    ensures
        match step {
            Discovery::Connect { port, announce } => is_first_match(
                port_names@,
                device_name@,
                port as int,
            ) && announce == MidiMessage::Connected,
            Discovery::Retry(wait) => no_match(port_names@, device_name@) && wait == 5000,
        },
{
    match find_port(device_name, port_names) {
        Some(port) => Discovery::Connect { port, announce: MidiMessage::Connected },
        None => Discovery::Retry(POLL_INTERVAL_MS),
    }
}

/// At most one port is the first of the device's, so the port names and the
/// device name decide the step of the search.
pub proof fn lemma_first_match_unique(
    names: Seq<Option<String>>,
    device: Seq<char>,
    a: int,
    b: int,
)
    requires
        is_first_match(names, device, a),
        is_first_match(names, device, b),
    ensures
        a == b,
        !no_match(names, device),
{
}

/// The message for an event that the device sent: its first three bytes are
/// the channel, the identifier of the control and the value.
pub fn decode(data: &[u8]) -> (message: MidiMessage)
    requires
        data@.len() >= 3,
    ensures
        message == MidiMessage::Data(data@[0], data@[1], data@[2]),
{
    MidiMessage::Data(data[0], data[1], data[2])
}

} // verus!
