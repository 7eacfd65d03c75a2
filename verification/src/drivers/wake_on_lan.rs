//! The Wake-on-LAN backend. Starting broadcasts a magic packet; the power
//! state is read by one ICMP echo; there is no way to power a machine off.

use vstd::prelude::*;

use crate::drivers::address::{is_ip_literal, is_ip_text};
use crate::drivers::traits::{
    reject_outcome, unexpected_outcome, Call, Completion, CompletionView, EchoFailure,
    EchoFailureView, EchoRequest, EchoRequestView, Exchange, ExchangeView, Operation, Outcome,
    OutcomeView, PingError, PowerManagerTrait, PowerStatus, PowerStatusView, Progress,
    ProgressView,
};
use crate::drivers::BackendView;
use crate::{Error, ErrorView};

verus! {

/// How long an echo reply is waited for, in seconds.
pub const ECHO_TIMEOUT_SECS: u64 = 1;

/// The size of the echo payload, in bytes.
pub const ECHO_PAYLOAD_LEN: u16 = 64;

/// What stands between the octets of a MAC address.
pub const MAC_SEPARATOR: char = ':';

/// Whether `c` is a hexadecimal digit, in either case.
pub open spec fn is_hex_digit(c: char) -> bool {
    ('0' <= c && c <= '9') || ('a' <= c && c <= 'f') || ('A' <= c && c <= 'F')
}

/// The number that the hexadecimal digit `c` stands for.
pub open spec fn hex_value(c: char) -> int {
    if '0' <= c && c <= '9' {
        c as int - '0' as int
    } else if 'a' <= c && c <= 'f' {
        c as int - 'a' as int + 10
    } else {
        c as int - 'A' as int + 10
    }
}

/// Whether position `i` of a MAC address text holds what belongs there:
/// a colon at every third place, a hexadecimal digit elsewhere.
pub open spec fn mac_char_ok(s: Seq<char>, i: int) -> bool {
    if i % 3 == 2 {
        s[i] == MAC_SEPARATOR
    } else {
        is_hex_digit(s[i])
    }
}

/// Whether `s` is a MAC address: six octets of two hexadecimal digits each,
/// with a colon between neighbours.
pub open spec fn is_mac_text(s: Seq<char>) -> bool {
    &&& s.len() == 17
    &&& forall|i: int| 0 <= i < 17 ==> #[trigger] mac_char_ok(s, i)
}

/// The six octets that the MAC address text `s` names.
pub open spec fn mac_octets(s: Seq<char>) -> Seq<u8> {
    Seq::new(6, |k: int| (16 * hex_value(s[3 * k]) + hex_value(s[3 * k + 1])) as u8)
}

/// The magic packet for `mac`: six bytes `0xFF`, then `mac` sixteen times.
pub open spec fn magic_packet(mac: Seq<u8>) -> Seq<u8> {
    Seq::new(
        102,
        |i: int|
            if i < 6 {
                0xFFu8
            } else {
                mac[(i - 6) % 6]
            },
    )
}

/// The text of the error for a MAC address that is none: one for a text
/// that is not seventeen bytes long, another for any other fault.
pub open spec fn mac_fault(s: Seq<char>) -> Seq<char> {
    if vstd::utf8::encode_utf8(s).len() != 17 {
        "WakeyError: Invalid MAC address length"@
    } else {
        "WakeyError: Invalid MAC address format"@
    }
}

/// The text of the error for settings that no backend can be made from, if
/// there is a fault in them: an IP address that is none, or else a MAC
/// address that is none.
pub open spec fn wol_fault(mac_addr: Seq<char>, ip_addr: Seq<char>) -> Option<Seq<char>> {
    if !is_ip_text(ip_addr) {
        Some("invalid IP address syntax"@)
    } else if !is_mac_text(mac_addr) {
        Some(mac_fault(mac_addr))
    } else {
        None
    }
}

/// Decides whether `mac_addr` is a MAC address.
pub fn is_valid_mac(mac_addr: &str) -> (valid: bool)
    ensures
        valid == is_mac_text(mac_addr@),
{
    if mac_addr.unicode_len() != 17 {
        return false;
    }
    let mut i: usize = 0;
    while i < 17
        invariant
            i <= 17,
            mac_addr@.len() == 17,
            forall|j: int| 0 <= j < i ==> #[trigger] mac_char_ok(mac_addr@, j),
        decreases 17 - i,
    {
        let c = mac_addr.get_char(i);
        let fits = if i % 3 == 2 {
            c == MAC_SEPARATOR
        } else {
            ('0' <= c && c <= '9') || ('a' <= c && c <= 'f') || ('A' <= c && c <= 'F')
        };
        if !fits {
            assert(!mac_char_ok(mac_addr@, i as int));
            return false;
        }
        i = i + 1;
    }
    true
}

/// Calls `wakey::WolPacket::from_string` and copies the packet's bytes out.
/// For a MAC address of six two-digit octets, with the colon given as the
/// separator, the outside function returns the magic packet of those
/// octets. Other texts, some of which make it panic, are left out.
#[verifier::external_body]
fn packet_for(mac_addr: &str, sep: char) -> (packet: Result<Vec<u8>, String>)
    requires
        sep == MAC_SEPARATOR,
        is_mac_text(mac_addr@),
    ensures
        packet is Ok,
        packet->Ok_0@ == magic_packet(mac_octets(mac_addr@)),
{
    match wakey::WolPacket::from_string(mac_addr, sep) {
        Ok(p) => Ok(p.into_inner().to_vec()),
        Err(e) => Err(e.to_string()),
    }
}

/// A backend that wakes its machine with a magic packet.
#[derive(Debug, Clone)]
pub struct WakeOnLanDriver {
    name: String,
    packet: Vec<u8>,
    ip_addr: String,
}

/// The mathematical value of a [`WakeOnLanDriver`].
pub struct WakeOnLanDriverView {
    pub name: Seq<char>,
    /// The magic packet that wakes the machine.
    pub packet: Seq<u8>,
    /// The machine's IP address, as text.
    pub ip_addr: Seq<char>,
}

impl View for WakeOnLanDriver {
    type V = WakeOnLanDriverView;

    closed spec fn view(&self) -> WakeOnLanDriverView {
        WakeOnLanDriverView { name: self.name@, packet: self.packet@, ip_addr: self.ip_addr@ }
    }
}

impl WakeOnLanDriverView {
    /// The status reported for the machine.
    pub open spec fn report(self, running: bool, reason: Option<Seq<char>>) -> PowerStatusView {
        PowerStatusView { name: self.name, hostname: self.ip_addr, running, reason }
    }

    /// The echo that reads the power state.
    pub open spec fn echo(self) -> EchoRequestView {
        EchoRequestView {
            addr: self.ip_addr,
            timeout_secs: ECHO_TIMEOUT_SECS,
            payload_len: ECHO_PAYLOAD_LEN,
            ttl: None,
        }
    }

    /// The first step of an operation. Starting asks for the broadcast,
    /// whatever the machine's state; the status asks for one echo; stopping
    /// is unsupported.
    pub open spec fn begin(self, op: Operation) -> ProgressView {
        match op {
            Operation::Start => ProgressView::Ask(ExchangeView::SendMagic(self.packet)),
            Operation::Status => ProgressView::Ask(ExchangeView::Echo(self.echo())),
            Operation::Stop => ProgressView::Finished(Err(ErrorView::NotImplemented)),
        }
    }

    /// What an echo's outcome says of the machine. A reply means that it
    /// runs. A failure of the ping subsystem itself is an error. Any other
    /// failure means that the machine is off or out of reach, which is a
    /// status, with the failure's description as the reason.
    pub open spec fn echoed(self, echo: Result<(), EchoFailureView>) -> Result<
        CompletionView,
        ErrorView,
    > {
        match echo {
            Ok(()) => Ok(CompletionView::Status(self.report(true, None))),
            Err(f) => if f.kind == PingError::InternalError {
                Err(ErrorView::InternalServerError("PingError: "@ + f.description))
            } else {
                Ok(CompletionView::Status(self.report(false, Some(f.description))))
            },
        }
    }

    /// The step after an outcome.
    pub open spec fn resume(self, op: Operation, outcome: OutcomeView) -> ProgressView {
        match (op, outcome) {
            (Operation::Start, OutcomeView::Sent(Ok(()))) => ProgressView::Finished(
                Ok(CompletionView::Accepted),
            ),
            (Operation::Start, OutcomeView::Sent(Err(cause))) => ProgressView::Finished(
                Err(ErrorView::InternalServerError("WakeyError: "@ + cause)),
            ),
            (Operation::Status, OutcomeView::Echo(echo)) => ProgressView::Finished(
                self.echoed(echo),
            ),
            _ => unexpected_outcome(),
        }
    }
}

impl WakeOnLanDriver {
    /// A backend under `name` for the machine with the MAC address
    /// `mac_addr` and the IP address `ip_addr`. It fails exactly when
    /// `ip_addr` is no IP address or `mac_addr` is no MAC address.
    pub fn new(name: String, mac_addr: &str, ip_addr: String) -> (driver: Result<Self, Error>)
        ensures
            match driver {
                Ok(d) => wol_fault(mac_addr@, ip_addr@) is None && d@ == (WakeOnLanDriverView {
                    name: name@,
                    packet: magic_packet(mac_octets(mac_addr@)),
                    ip_addr: ip_addr@,
                }),
                Err(e) => wol_fault(mac_addr@, ip_addr@) == Some(e@->InternalServerError_0)
                    && e@ is InternalServerError,
            },
    {
        if !is_ip_literal(ip_addr.as_str()) {
            return Err(Error::InternalServerError(String::from_str("invalid IP address syntax")));
        }
        if !is_valid_mac(mac_addr) {
            let text = if mac_addr.as_bytes().len() != 17 {
                String::from_str("WakeyError: Invalid MAC address length")
            } else {
                String::from_str("WakeyError: Invalid MAC address format")
            };
            return Err(Error::InternalServerError(text));
        }
        match packet_for(mac_addr, MAC_SEPARATOR) {
            Ok(packet) => Ok(WakeOnLanDriver { name, packet, ip_addr }),
            Err(cause) => Err(
                Error::InternalServerError(String::from_str("WakeyError: ").concat(cause.as_str())),
            ),
        }
    }

    /// The backend's identifier.
    pub fn name(&self) -> (name: &String)
        ensures
            name@ == self@.name,
    {
        &self.name
    }

    /// The machine's status, as an echo's outcome shows it.
    pub fn status_from_echo(&self, echo: Result<(), EchoFailure>) -> (status: Result<
        Completion,
        Error,
    >)
        ensures
            match status {
                Ok(c) => self@.echoed(echo_view(echo)) == Ok::<CompletionView, ErrorView>(c@),
                Err(e) => self@.echoed(echo_view(echo)) == Err::<CompletionView, ErrorView>(e@),
            },
    {
        match echo {
            Ok(()) => Ok(
                Completion::Status(
                    PowerStatus {
                        name: self.name.clone(),
                        hostname: self.ip_addr.clone(),
                        running: true,
                        reason: None,
                    },
                ),
            ),
            Err(f) => match f.kind {
                PingError::InternalError => Err(
                    Error::InternalServerError(
                        String::from_str("PingError: ").concat(f.description.as_str()),
                    ),
                ),
                _ => Ok(
                    Completion::Status(
                        PowerStatus {
                            name: self.name.clone(),
                            hostname: self.ip_addr.clone(),
                            running: false,
                            reason: Some(f.description),
                        },
                    ),
                ),
            },
        }
    }
}

/// The mathematical value of an echo's outcome.
pub open spec fn echo_view(echo: Result<(), EchoFailure>) -> Result<(), EchoFailureView> {
    match echo {
        Ok(()) => Ok(()),
        Err(f) => Err(f@),
    }
}

impl PowerManagerTrait for WakeOnLanDriver {
    open spec fn model(&self) -> BackendView {
        BackendView::WakeOnLan(self@)
    }

    fn start(&mut self, now: i64) -> (p: Progress) {
        Progress::Ask(Exchange::SendMagic(self.packet.clone()))
    }

    fn status(&mut self, now: i64) -> (p: Progress) {
        Progress::Ask(
            Exchange::Echo(
                EchoRequest {
                    addr: self.ip_addr.clone(),
                    timeout_secs: ECHO_TIMEOUT_SECS,
                    payload_len: ECHO_PAYLOAD_LEN,
                    ttl: None,
                },
            ),
        )
    }

    fn stop(&mut self, now: i64) -> (p: Progress) {
        Progress::Finished(Err(Error::NotImplemented()))
    }

    fn resume(&mut self, call: &Call, outcome: Outcome) -> (p: Progress) {
        match (call.op, outcome) {
            (Operation::Start, Outcome::Sent(Ok(()))) => Progress::Finished(
                Ok(Completion::Accepted),
            ),
            (Operation::Start, Outcome::Sent(Err(cause))) => Progress::Finished(
                Err(
                    Error::InternalServerError(
                        String::from_str("WakeyError: ").concat(cause.as_str()),
                    ),
                ),
            ),
            (Operation::Status, Outcome::Echo(echo)) => Progress::Finished(
                self.status_from_echo(echo),
            ),
            _ => reject_outcome(),
        }
    }
}

/// What an echo says of the machine. A reply: it runs. A failure of any
/// kind but that of the ping subsystem itself: the status call succeeds and
/// reports the machine as not running, with the failure's description as the
/// reason. A failure of the ping subsystem: the status call fails.
pub proof fn law_echo_failure_is_a_status(w: WakeOnLanDriverView, f: EchoFailureView)
    ensures
        w.resume(Operation::Status, OutcomeView::Echo(Ok(()))) == ProgressView::Finished(
            Ok(
                CompletionView::Status(
                    PowerStatusView {
                        name: w.name,
                        hostname: w.ip_addr,
                        running: true,
                        reason: None,
                    },
                ),
            ),
        ),
        f.kind != PingError::InternalError ==> w.resume(
            Operation::Status,
            OutcomeView::Echo(Err(f)),
        ) == ProgressView::Finished(
            Ok(
                CompletionView::Status(
                    PowerStatusView {
                        name: w.name,
                        hostname: w.ip_addr,
                        running: false,
                        reason: Some(f.description),
                    },
                ),
            ),
        ),
        f.kind == PingError::InternalError ==> w.resume(
            Operation::Status,
            OutcomeView::Echo(Err(f)),
        ) == ProgressView::Finished(
            Err(ErrorView::InternalServerError("PingError: "@ + f.description)),
        ),
{
}

} // verus!
