//! Finding a device among serial ports: which ports to try, what a read off a
//! port means, and which of several handshakes wins.
//!
//! Candidates are filtered by USB vendor id only, so probing also writes a
//! handshake to a device of another make that shares the id. Such a device just
//! fails the handshake.
use crate::client::Client;
use crate::error::{ConnectError, RequestError};
use crate::payload::{DeviceCapabilities, ProtocolVersion};
use crate::transport::TransportError;
use vstd::prelude::*;
use vstd::string::StringExecFns;

verus! {

/// RMK's default USB vendor id (firmware can be built with another).
pub const RMK_USB_VID: u16 = 0x4c4b;

/// A serial port of the machine.
#[derive(Debug)]
pub struct PortInfo {
    pub name: String,
    /// The vendor id, of a USB port.
    pub usb_vid: Option<u16>,
}

/// The names of the ports with this vendor id, in order.
pub open spec fn names_with_vid(ports: Seq<PortInfo>, vid: u16) -> Seq<String>
    decreases ports.len(),
{
    if ports.len() == 0 {
        seq![]
    } else {
        let names = names_with_vid(ports.drop_last(), vid);
        if ports.last().usb_vid == Some(vid) {
            names.push(ports.last().name)
        } else {
            names
        }
    }
}

/// Serial ports whose USB vendor id matches `vid`.
pub fn candidates_with_vid(ports: &Vec<PortInfo>, vid: u16) -> (names: Vec<String>)
    ensures
        names@ == names_with_vid(ports@, vid),
        names@ == ports@.filter(|port: PortInfo| port.usb_vid == Some(vid)).map_values(
            |port: PortInfo| port.name,
        ),
{
    let mut names: Vec<String> = Vec::new();
    let mut i: usize = 0;
    while i < ports.len()
        invariant
            i <= ports.len(),
            names@ == names_with_vid(ports@.take(i as int), vid),
        decreases ports.len() - i,
    {
        assert(ports@.take(i + 1).drop_last() =~= ports@.take(i as int));
        assert(ports@.take(i + 1).last() == ports@[i as int]);
        match ports[i].usb_vid {
            Some(got) => if got == vid {
                names.push(ports[i].name.clone());
            },
            None => {},
        }
        i = i + 1;
    }
    assert(ports@.take(i as int) =~= ports@);
    proof {
        candidates_are_filtered(ports@, vid);
    }
    names
}

/// The candidates are what is left of the ports without those of another vendor
/// id, by name.
pub proof fn candidates_are_filtered(ports: Seq<PortInfo>, vid: u16)
    ensures
        names_with_vid(ports, vid) == ports.filter(
            |port: PortInfo| port.usb_vid == Some(vid),
        ).map_values(|port: PortInfo| port.name),
    decreases ports.len(),
{
    reveal(Seq::filter);
    let left = ports.filter(|port: PortInfo| port.usb_vid == Some(vid));
    if ports.len() > 0 {
        candidates_are_filtered(ports.drop_last(), vid);
        assert(names_with_vid(ports, vid) =~= left.map_values(|port: PortInfo| port.name));
    } else {
        assert(names_with_vid(ports, vid) =~= left.map_values(|port: PortInfo| port.name));
    }
}

/// What a read into `buf` means: a chunk, or the end of the link where nothing
/// was read.
pub fn read_chunk(buf: &Vec<u8>, outcome: Result<usize, String>) -> (r: Result<
    Vec<u8>,
    TransportError,
>)
    requires
        outcome matches Ok(n) ==> n <= buf@.len(),
    ensures
        match outcome {
            Ok(n) => if n == 0 {
                r == Err::<Vec<u8>, TransportError>(TransportError::Disconnected)
            } else {
                r matches Ok(chunk) && chunk@ == buf@.take(n as int)
            },
            Err(message) => r == Err::<Vec<u8>, TransportError>(TransportError::Io(message)),
        },
{
    match outcome {
        Ok(n) => {
            if n == 0 {
                return Err(TransportError::Disconnected);
            }
            let mut chunk: Vec<u8> = Vec::new();
            let mut i: usize = 0;
            while i < n
                invariant
                    i <= n <= buf@.len(),
                    chunk@ == buf@.take(i as int),
                decreases n - i,
            {
                chunk.push(buf[i]);
                i = i + 1;
                assert(chunk@ =~= buf@.take(i as int));
            }
            Ok(chunk)
        },
        Err(message) => Err(TransportError::Io(message)),
    }
}

/// The error for a port that did not open.
pub fn open_failed(path: &str, message: &str) -> (e: TransportError)
    ensures
        e matches TransportError::Io(text) && text@ == "open "@ + path@ + ": "@ + message@,
{
    let mut text = String::from_str("open ");
    text.append(path);
    text.append(": ");
    text.append(message);
    TransportError::Io(text)
}

/// The lower-case hexadecimal digit of a value under 16.
pub open spec fn hex_digit(value: u16) -> char {
    if value < 10 {
        (value + 48) as char
    } else {
        (value + 87) as char
    }
}

/// Four hexadecimal digits, leading zeros kept.
pub open spec fn hex4(value: u16) -> Seq<char> {
    seq![
        hex_digit(value / 4096 % 16),
        hex_digit(value / 256 % 16),
        hex_digit(value / 16 % 16),
        hex_digit(value % 16),
    ]
}

/// The text of one hexadecimal digit.
fn digit(value: u16) -> (text: &'static str)
    requires
        value < 16,
    ensures
        text@ == seq![hex_digit(value)],
{
    proof {
        reveal_strlit("0");
        reveal_strlit("1");
        reveal_strlit("2");
        reveal_strlit("3");
        reveal_strlit("4");
        reveal_strlit("5");
        reveal_strlit("6");
        reveal_strlit("7");
        reveal_strlit("8");
        reveal_strlit("9");
        reveal_strlit("a");
        reveal_strlit("b");
        reveal_strlit("c");
        reveal_strlit("d");
        reveal_strlit("e");
        reveal_strlit("f");
    }
    match value {
        0 => "0",
        1 => "1",
        2 => "2",
        3 => "3",
        4 => "4",
        5 => "5",
        6 => "6",
        7 => "7",
        8 => "8",
        9 => "9",
        10 => "a",
        11 => "b",
        12 => "c",
        13 => "d",
        14 => "e",
        _ => "f",
    }
}

/// The text of the error for a vendor id that no port has.
pub open spec fn no_port_text(vid: u16) -> Seq<char> {
    "no USB serial port with vendor id 0x"@ + hex4(vid) + " found"@
}

/// The candidates to probe; it is an error that there are none.
pub fn some_candidates(candidates: Vec<String>, vid: u16) -> (r: Result<Vec<String>, ConnectError>)
    ensures
        if candidates@.len() == 0 {
            r matches Err(ConnectError::Transport(TransportError::DeviceNotFound(text)))
                && text@ == no_port_text(vid)
        } else {
            r == Ok::<Vec<String>, ConnectError>(candidates)
        },
{
    if candidates.len() > 0 {
        return Ok(candidates);
    }
    let mut text = String::from_str("no USB serial port with vendor id 0x");
    text.append(digit(vid / 4096 % 16));
    text.append(digit(vid / 256 % 16));
    text.append(digit(vid / 16 % 16));
    text.append(digit(vid % 16));
    text.append(" found");
    assert(text@ =~= no_port_text(vid));
    Err(ConnectError::Transport(TransportError::DeviceNotFound(text)))
}

/// Whether this is the error for a handshake that did not finish in time.
pub open spec fn timed_out(e: ConnectError) -> bool {
    e matches ConnectError::Transport(TransportError::DeviceNotFound(text)) && text@
        == "handshake timed out"@
}

/// The error for a handshake that did not finish in time.
fn time_out() -> (e: ConnectError)
    ensures
        timed_out(e),
{
    ConnectError::Transport(
        TransportError::DeviceNotFound(String::from_str("handshake timed out")),
    )
}

/// What a handshake under a time limit gave; nothing where the limit passed.
pub fn within_limit<C>(outcome: Option<Result<C, ConnectError>>) -> (r: Result<C, ConnectError>)
    ensures
        match outcome {
            Some(outcome) => r == outcome,
            None => r matches Err(e) && timed_out(e),
        },
{
    match outcome {
        Some(outcome) => outcome,
        None => Err(time_out()),
    }
}

/// Whether the error is a real Rynk reply, the most informative kind: firmware
/// of another major, or a rejection.
pub open spec fn definitive(e: ConnectError) -> bool {
    e is VersionMismatch || e matches ConnectError::Request(RequestError::Rejected(_))
}

/// A probe as a value.
pub ghost struct ProbeView {
    /// How many candidates there are.
    pub total: usize,
    /// The first definitive error.
    pub definitive: Option<ConnectError>,
    /// The last error that was not definitive.
    pub last: Option<ConnectError>,
}

impl ProbeView {
    /// What a failed candidate does; one that failed without an error does
    /// nothing.
    pub open spec fn fail(self, failure: Option<ConnectError>) -> ProbeView {
        match failure {
            None => self,
            Some(e) => if definitive(e) {
                if self.definitive is Some {
                    self
                } else {
                    ProbeView { definitive: Some(e), ..self }
                }
            } else {
                ProbeView { last: Some(e), ..self }
            },
        }
    }

    /// What several failed candidates do, one after another.
    pub open spec fn fail_all(self, failures: Seq<Option<ConnectError>>) -> ProbeView
        decreases failures.len(),
    {
        if failures.len() == 0 {
            self
        } else {
            self.fail_all(failures.drop_last()).fail(failures.last())
        }
    }

    /// Whether `e` is the error of a probe in which no candidate connected.
    pub open spec fn ends_in(self, e: ConnectError) -> bool {
        match self.definitive {
            Some(first) => e == first,
            None => e matches ConnectError::NoResponsiveDevice { probed, last } && probed
                == self.total && match self.last {
                Some(other) => *last == other,
                None => timed_out(*last),
            },
        }
    }
}

/// The state of probing several candidates at once: the first passing handshake
/// wins.
///
/// A definitive error does not end the probe, as another port may host a
/// compatible keyboard; it is surfaced where no port connects.
pub struct Probe {
    total: usize,
    definitive: Option<ConnectError>,
    last: Option<ConnectError>,
}

impl View for Probe {
    type V = ProbeView;

    closed spec fn view(&self) -> ProbeView {
        ProbeView { total: self.total, definitive: self.definitive, last: self.last }
    }
}

impl Probe {
    /// A probe of `total` candidates, none of which has answered.
    pub fn new(total: usize) -> (probe: Probe)
        ensures
            probe@ == (ProbeView { total, definitive: None, last: None }),
    {
        Probe { total, definitive: None, last: None }
    }

    /// Takes the outcome of one candidate; nothing where its task failed. Gives
    /// the client that won, if this one did.
    pub fn joined<C>(&mut self, outcome: Option<Result<C, ConnectError>>) -> (winner: Option<C>)
        ensures
            match outcome {
                Some(Ok(client)) => winner == Some(client) && final(self)@ == old(self)@,
                Some(Err(e)) => winner is None && final(self)@ == old(self)@.fail(Some(e)),
                None => winner is None && final(self)@ == old(self)@.fail(None),
            },
    {
        match outcome {
            Some(Ok(client)) => Some(client),
            Some(Err(e)) => {
                let informative: bool = match &e {
                    ConnectError::VersionMismatch { .. } => true,
                    ConnectError::Request(RequestError::Rejected(_)) => true,
                    _ => false,
                };
                if informative {
                    if self.definitive.is_none() {
                        self.definitive = Some(e);
                    }
                } else {
                    self.last = Some(e);
                }
                None
            },
            None => None,
        }
    }

    /// The error of a probe in which no candidate connected.
    pub fn finish(self) -> (e: ConnectError)
        ensures
            self@.ends_in(e),
    {
        let Probe { total, definitive, last } = self;
        match definitive {
            Some(e) => e,
            None => {
                let last = match last {
                    Some(e) => e,
                    None => time_out(),
                };
                ConnectError::NoResponsiveDevice { probed: total, last: Box::new(last) }
            },
        }
    }
}

/// A responsive Rynk serial device, for building a device picker.
#[derive(Debug)]
pub struct SerialDevice {
    pub path: String,
    pub version: ProtocolVersion,
    pub capabilities: DeviceCapabilities,
}

impl SerialDevice {
    /// The device at `path` that `client` is connected to.
    pub fn of(path: String, client: &Client) -> (device: SerialDevice)
        requires
            client@.caps is Some,
        ensures
            device.path == path,
            device.version == client@.version,
            Some(device.capabilities) == client@.caps,
    {
        SerialDevice {
            path,
            version: client.protocol_version(),
            capabilities: *client.capabilities(),
        }
    }
}

/// Adds what one candidate of a discovery gave; a silent one gives nothing.
pub fn discovered(found: &mut Vec<SerialDevice>, joined: Option<SerialDevice>)
    ensures
        final(found)@ == (match joined {
            Some(device) => old(found)@.push(device),
            None => old(found)@,
        }),
{
    match joined {
        Some(device) => found.push(device),
        None => {},
    }
}

/// A definitive error surfaces over all others: the first one, wherever in the
/// probe it came.
pub proof fn definitive_error_surfaces(
    total: usize,
    failures: Seq<Option<ConnectError>>,
    first: int,
    e: ConnectError,
)
    requires
        0 <= first < failures.len(),
        failures[first] == Some(e),
        definitive(e),
        forall|i: int|
            0 <= i < first ==> !(#[trigger] failures[i] matches Some(other) && definitive(other)),
    ensures
        (ProbeView { total, definitive: None, last: None }).fail_all(failures).definitive == Some(
            e,
        ),
        forall|end: ConnectError|
            (ProbeView { total, definitive: None, last: None }).fail_all(failures).ends_in(end)
                ==> end == e,
    decreases failures.len(),
{
    let start = ProbeView { total, definitive: None, last: None };
    let before = failures.drop_last();
    if first == failures.len() - 1 {
        assert forall|i: int| 0 <= i < before.len() implies !(#[trigger] before[i] matches Some(
            other,
        ) && definitive(other)) by {
            assert(failures[i] == before[i]);
        }
        no_definitive_error(start, before);
    } else {
        assert forall|i: int| 0 <= i < first implies !(#[trigger] before[i] matches Some(other)
            && definitive(other)) by {
            assert(failures[i] == before[i]);
        }
        definitive_error_surfaces(total, before, first, e);
    }
}

/// Failures of which none is definitive leave a probe without a definitive
/// error.
proof fn no_definitive_error(start: ProbeView, failures: Seq<Option<ConnectError>>)
    requires
        start.definitive is None,
        forall|i: int|
            0 <= i < failures.len() ==> !(#[trigger] failures[i] matches Some(other) && definitive(
                other,
            )),
    ensures
        start.fail_all(failures).definitive is None,
    decreases failures.len(),
{
    if failures.len() > 0 {
        let before = failures.drop_last();
        assert forall|i: int| 0 <= i < before.len() implies !(#[trigger] before[i] matches Some(
            other,
        ) && definitive(other)) by {
            assert(failures[i] == before[i]);
        }
        no_definitive_error(start, before);
        assert(failures[failures.len() - 1] == failures.last());
    }
}

/// Without a definitive error a probe ends in `NoResponsiveDevice`, with the
/// number of candidates and the last error that any of them gave.
pub proof fn last_error_is_reported(
    total: usize,
    failures: Seq<Option<ConnectError>>,
    at: int,
    e: ConnectError,
)
    requires
        0 <= at < failures.len(),
        failures[at] == Some(e),
        forall|i: int|
            0 <= i < failures.len() ==> !(#[trigger] failures[i] matches Some(other) && definitive(
                other,
            )),
        forall|i: int| at < i < failures.len() ==> #[trigger] failures[i] is None,
    ensures
        (ProbeView { total, definitive: None, last: None }).fail_all(failures) == (ProbeView {
            total,
            definitive: None,
            last: Some(e),
        }),
        (ProbeView { total, definitive: None, last: None }).fail_all(failures).ends_in(
            ConnectError::NoResponsiveDevice { probed: total, last: Box::new(e) },
        ),
    decreases failures.len(),
{
    let start = ProbeView { total, definitive: None, last: None };
    let before = failures.drop_last();
    assert(failures[at] == Some(e));
    assert forall|i: int| 0 <= i < before.len() implies !(#[trigger] before[i] matches Some(other)
        && definitive(other)) by {
        assert(failures[i] == before[i]);
    }
    if at == failures.len() - 1 {
        no_definitive_error(start, before);
        totals_stay(start, before);
    } else {
        assert(failures[failures.len() - 1] is None);
        assert forall|i: int| at < i < before.len() implies #[trigger] before[i] is None by {
            assert(failures[i] == before[i]);
        }
        last_error_is_reported(total, before, at, e);
    }
}

/// Failures do not change the number of candidates.
proof fn totals_stay(start: ProbeView, failures: Seq<Option<ConnectError>>)
    ensures
        start.fail_all(failures).total == start.total,
    decreases failures.len(),
{
    if failures.len() > 0 {
        totals_stay(start, failures.drop_last());
    }
}

} // verus!
