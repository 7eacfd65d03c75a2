//! The capability contract that every backend answers, and the values that
//! pass between a backend and the caller who does its network traffic.

use vstd::prelude::*;

use crate::drivers::BackendView;
use crate::{Error, ErrorView};

verus! {

/// What a backend reports of its machine.
#[derive(Debug, Clone, PartialEq, Eq)]
pub struct PowerStatus {
    /// The backend's identifier.
    pub name: String,
    /// The address the backend reaches its machine under.
    pub hostname: String,
    /// Whether the machine is powered on.
    pub running: bool,
    /// Why the machine counts as off, where the backend learned a reason.
    pub reason: Option<String>,
}

/// The mathematical value of a [`PowerStatus`].
pub struct PowerStatusView {
    pub name: Seq<char>,
    pub hostname: Seq<char>,
    pub running: bool,
    pub reason: Option<Seq<char>>,
}

impl View for PowerStatus {
    type V = PowerStatusView;

    open spec fn view(&self) -> PowerStatusView {
        PowerStatusView {
            name: self.name@,
            hostname: self.hostname@,
            running: self.running,
            reason: match self.reason {
                Some(r) => Some(r@),
                None => None,
            },
        }
    }
}

/// One of the three operations of the capability contract.
#[derive(Debug, Clone, Copy, PartialEq, Eq, Structural)]
pub enum Operation {
    /// Power the machine on.
    Start,
    /// Read the machine's power state.
    Status,
    /// Power the machine off.
    Stop,
}

/// A raw IPMI request: the network function, the command code and the
/// payload, if the command has one.
#[derive(Debug, Clone, PartialEq, Eq)]
pub struct RawRequest {
    pub netfn: u8,
    pub cmd: u8,
    pub data: Option<Vec<u8>>,
}

/// The mathematical value of a [`RawRequest`].
pub struct RawRequestView {
    pub netfn: u8,
    pub cmd: u8,
    pub data: Option<Seq<u8>>,
}

impl View for RawRequest {
    type V = RawRequestView;

    open spec fn view(&self) -> RawRequestView {
        RawRequestView {
            netfn: self.netfn,
            cmd: self.cmd,
            data: match self.data {
                Some(d) => Some(d@),
                None => None,
            },
        }
    }
}

/// One ICMP echo request to send.
#[derive(Debug, Clone, PartialEq, Eq)]
pub struct EchoRequest {
    /// The target's IP address, as text.
    pub addr: String,
    /// How long to wait for the reply, in seconds.
    pub timeout_secs: u64,
    /// The size of the echo payload, in bytes.
    pub payload_len: u16,
    /// The hop limit; `None` leaves it at the transport's default.
    pub ttl: Option<u32>,
}

/// The mathematical value of an [`EchoRequest`].
pub struct EchoRequestView {
    pub addr: Seq<char>,
    pub timeout_secs: u64,
    pub payload_len: u16,
    pub ttl: Option<u32>,
}

impl View for EchoRequest {
    type V = EchoRequestView;

    open spec fn view(&self) -> EchoRequestView {
        EchoRequestView {
            addr: self.addr@,
            timeout_secs: self.timeout_secs,
            payload_len: self.payload_len,
            ttl: self.ttl,
        }
    }
}

/// What is needed to open an IPMI session.
#[derive(Debug, Clone, PartialEq, Eq)]
pub struct SessionRequest {
    /// The controller's socket address, `host:port`.
    pub server_addr: String,
    pub username: String,
    pub password: String,
}

/// The mathematical value of a [`SessionRequest`].
pub struct SessionRequestView {
    pub server_addr: Seq<char>,
    pub username: Seq<char>,
    pub password: Seq<char>,
}

impl View for SessionRequest {
    type V = SessionRequestView;

    open spec fn view(&self) -> SessionRequestView {
        SessionRequestView {
            server_addr: self.server_addr@,
            username: self.username@,
            password: self.password@,
        }
    }
}

/// Network traffic that a backend asks its caller to carry out.
#[derive(Debug, Clone, PartialEq, Eq)]
pub enum Exchange {
    /// Broadcast these bytes, a Wake-on-LAN magic packet.
    SendMagic(Vec<u8>),
    /// Send one ICMP echo request and wait for its reply.
    Echo(EchoRequest),
    /// Connect to an IPMI controller and authenticate; the session that
    /// results replaces the one the caller holds for the backend.
    Handshake(SessionRequest),
    /// Send a raw request over the backend's live IPMI session.
    Chassis(RawRequest),
}

/// The mathematical value of an [`Exchange`].
pub enum ExchangeView {
    SendMagic(Seq<u8>),
    Echo(EchoRequestView),
    Handshake(SessionRequestView),
    Chassis(RawRequestView),
}

impl View for Exchange {
    type V = ExchangeView;

    open spec fn view(&self) -> ExchangeView {
        match self {
            Exchange::SendMagic(p) => ExchangeView::SendMagic(p@),
            Exchange::Echo(e) => ExchangeView::Echo(e@),
            Exchange::Handshake(s) => ExchangeView::Handshake(s@),
            Exchange::Chassis(r) => ExchangeView::Chassis(r@),
        }
    }
}

/// The ways an ICMP echo can fail.
#[derive(Debug, Clone, Copy, PartialEq, Eq, Structural)]
pub enum PingError {
    /// The reply was not ICMP.
    InvalidProtocol,
    /// The ping subsystem itself failed.
    InternalError,
    /// The reply's IPv4 header could not be decoded.
    DecodeV4Error,
    /// The reply's echo body could not be decoded.
    DecodeEchoReplyError,
    /// The socket reported an error: unreachable host, timeout.
    IoError,
}

/// A failed ICMP echo: its kind and its description.
#[derive(Debug, Clone, PartialEq, Eq)]
pub struct EchoFailure {
    pub kind: PingError,
    pub description: String,
}

/// The mathematical value of an [`EchoFailure`].
pub struct EchoFailureView {
    pub kind: PingError,
    pub description: Seq<char>,
}

impl View for EchoFailure {
    type V = EchoFailureView;

    open spec fn view(&self) -> EchoFailureView {
        EchoFailureView { kind: self.kind, description: self.description@ }
    }
}

/// How an [`Exchange`] ended. A failure carries the text of its cause.
#[derive(Debug, PartialEq, Eq)]
pub enum Outcome {
    /// Answers [`Exchange::SendMagic`].
    Sent(Result<(), String>),
    /// Answers [`Exchange::Echo`].
    Echo(Result<(), EchoFailure>),
    /// Answers [`Exchange::Handshake`].
    Handshake(Result<(), String>),
    /// Answers [`Exchange::Chassis`], with the data of the response.
    Chassis(Result<Option<Vec<u8>>, String>),
}

/// The mathematical value of an [`Outcome`].
pub enum OutcomeView {
    Sent(Result<(), Seq<char>>),
    Echo(Result<(), EchoFailureView>),
    Handshake(Result<(), Seq<char>>),
    Chassis(Result<Option<Seq<u8>>, Seq<char>>),
}

impl View for Outcome {
    type V = OutcomeView;

    open spec fn view(&self) -> OutcomeView {
        match self {
            Outcome::Sent(Ok(())) => OutcomeView::Sent(Ok(())),
            Outcome::Sent(Err(c)) => OutcomeView::Sent(Err(c@)),
            Outcome::Echo(Ok(())) => OutcomeView::Echo(Ok(())),
            Outcome::Echo(Err(f)) => OutcomeView::Echo(Err(f@)),
            Outcome::Handshake(Ok(())) => OutcomeView::Handshake(Ok(())),
            Outcome::Handshake(Err(c)) => OutcomeView::Handshake(Err(c@)),
            Outcome::Chassis(Ok(Some(d))) => OutcomeView::Chassis(Ok(Some(d@))),
            Outcome::Chassis(Ok(None)) => OutcomeView::Chassis(Ok(None)),
            Outcome::Chassis(Err(c)) => OutcomeView::Chassis(Err(c@)),
        }
    }
}

/// What a finished operation hands back.
#[derive(Debug, Clone, PartialEq, Eq)]
pub enum Completion {
    /// The power request was accepted; nothing is read back.
    Accepted,
    /// The machine's power state.
    Status(PowerStatus),
}

/// The mathematical value of a [`Completion`].
pub enum CompletionView {
    Accepted,
    Status(PowerStatusView),
}

impl View for Completion {
    type V = CompletionView;

    open spec fn view(&self) -> CompletionView {
        match self {
            Completion::Accepted => CompletionView::Accepted,
            Completion::Status(s) => CompletionView::Status(s@),
        }
    }
}

/// Where an operation stands after a step of its backend.
#[derive(Debug, PartialEq, Eq)]
pub enum Progress {
    /// The caller carries out the exchange and resumes with its outcome.
    Ask(Exchange),
    /// The operation is over.
    Finished(Result<Completion, Error>),
}

/// The mathematical value of a [`Progress`].
pub enum ProgressView {
    Ask(ExchangeView),
    Finished(Result<CompletionView, ErrorView>),
}

impl View for Progress {
    type V = ProgressView;

    open spec fn view(&self) -> ProgressView {
        match self {
            Progress::Ask(x) => ProgressView::Ask(x@),
            Progress::Finished(Ok(c)) => ProgressView::Finished(Ok(c@)),
            Progress::Finished(Err(e)) => ProgressView::Finished(Err(e@)),
        }
    }
}

/// The text of the error that answers an outcome no exchange asked for.
pub open spec fn unexpected_outcome() -> ProgressView {
    ProgressView::Finished(Err(ErrorView::InternalServerError("unexpected outcome"@)))
}

/// The error that answers an outcome which belongs to no exchange that the
/// backend asks for under the operation.
pub fn reject_outcome() -> (p: Progress)
    ensures
        p@ == unexpected_outcome(),
{
    Progress::Finished(Err(Error::InternalServerError(String::from_str("unexpected outcome"))))
}

/// Reads the clock through `chrono::Local::now` and returns its `timestamp`,
/// the seconds since the epoch. Nothing is claimed of the value. The outside
/// function panics where the system clock stands before 1970.
#[verifier::external_body]
pub(crate) fn unix_now() -> i64 {
    chrono::Local::now().timestamp()
}

/// One operation on a backend, from its first step to its end.
#[derive(Debug, Clone, Copy, PartialEq, Eq)]
pub struct Call {
    /// The operation.
    pub op: Operation,
    /// When the operation began, in seconds since the epoch.
    pub at: i64,
}

impl Call {
    /// An operation that begins now.
    pub fn begin(op: Operation) -> (call: Call)
        ensures
            call.op == op,
    {
        Call { op, at: unix_now() }
    }
}

/// The capability contract. An operation begins with `start`, `status` or
/// `stop`, each given the time at which it begins, in seconds since the
/// epoch. Where the answer is [`Progress::Ask`], the caller carries out the
/// exchange and calls `resume` with the call and the outcome, until the
/// answer is [`Progress::Finished`]. An outcome that answers no exchange of
/// the backend under the call's operation ends the call with an error.
///
/// A backend is stepped through `&mut`, so that one call at a time acts on
/// it; different backends share nothing.
pub trait PowerManagerTrait: Sized {
    /// The backend's mathematical value.
    spec fn model(&self) -> BackendView;

    /// Begins to power the machine on.
    fn start(&mut self, now: i64) -> (p: Progress)
        ensures
            final(self).model() == old(self).model().begin(Operation::Start, now).0,
            p@ == old(self).model().begin(Operation::Start, now).1,
    ;

    /// Begins to read the machine's power state.
    fn status(&mut self, now: i64) -> (p: Progress)
        ensures
            final(self).model() == old(self).model().begin(Operation::Status, now).0,
            p@ == old(self).model().begin(Operation::Status, now).1,
    ;

    /// Begins to power the machine off.
    fn stop(&mut self, now: i64) -> (p: Progress)
        ensures
            final(self).model() == old(self).model().begin(Operation::Stop, now).0,
            p@ == old(self).model().begin(Operation::Stop, now).1,
    ;

    /// Continues `call` with the outcome of the exchange that the backend
    /// asked for.
    fn resume(&mut self, call: &Call, outcome: Outcome) -> (p: Progress)
        ensures
            final(self).model() == old(self).model().resume(call.op, call.at, outcome@).0,
            p@ == old(self).model().resume(call.op, call.at, outcome@).1,
    ;
}

} // verus!
