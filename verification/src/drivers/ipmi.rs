//! The IPMI backend. It holds the record of one session with a chassis
//! controller and turns each operation into a raw chassis request. A session
//! older than the renewal period is replaced by a fresh handshake before the
//! request goes out.

use vstd::prelude::*;

use crate::drivers::traits::{
    reject_outcome, unexpected_outcome, unix_now, Call, Completion, CompletionView, Exchange,
    ExchangeView, Operation, Outcome, OutcomeView, PowerManagerTrait, PowerStatus,
    PowerStatusView, Progress, ProgressView, RawRequest, RawRequestView, SessionRequest,
    SessionRequestView,
};
use crate::drivers::BackendView;
use crate::{Error, ErrorView};

verus! {

/// The age, in seconds, beyond which a session is renewed before use.
pub const CLIENT_RENEW_PERIOD: i64 = 60;

/// The network function of the chassis commands.
pub const NETFN_CHASSIS: u8 = 0x00;

/// The command that reads the chassis status.
pub const CMD_CHASSIS_STATUS: u8 = 0x01;

/// The command that switches the chassis power.
pub const CMD_CHASSIS_CONTROL: u8 = 0x02;

/// The chassis control payload that powers the machine off.
pub const POWER_OFF: u8 = 0x00;

/// The chassis control payload that powers the machine on.
pub const POWER_ON: u8 = 0x01;

/// The error for a handshake or a request that failed with `cause`.
pub open spec fn client_fault(cause: Seq<char>) -> ErrorView {
    ErrorView::InternalServerError("IPMIClientError: "@ + cause)
}

/// The error for a status response that carries no data.
pub open spec fn empty_response() -> ErrorView {
    ErrorView::InternalServerError("Invalid response received: data is empty"@)
}

/// The mathematical value of the end of a handshake or a send.
pub open spec fn done_view(done: Result<(), String>) -> Result<(), Seq<char>> {
    match done {
        Ok(()) => Ok(()),
        Err(cause) => Err(cause@),
    }
}

/// The mathematical value of the data of a response.
pub open spec fn data_view(data: Option<Vec<u8>>) -> Option<Seq<u8>> {
    match data {
        Some(d) => Some(d@),
        None => None,
    }
}

/// The raw request that carries out `op`.
pub open spec fn request(op: Operation) -> RawRequestView {
    match op {
        Operation::Status => RawRequestView {
            netfn: NETFN_CHASSIS,
            cmd: CMD_CHASSIS_STATUS,
            data: None,
        },
        Operation::Start => RawRequestView {
            netfn: NETFN_CHASSIS,
            cmd: CMD_CHASSIS_CONTROL,
            data: Some(seq![POWER_ON]),
        },
        Operation::Stop => RawRequestView {
            netfn: NETFN_CHASSIS,
            cmd: CMD_CHASSIS_CONTROL,
            data: Some(seq![POWER_OFF]),
        },
    }
}

/// Builds the raw request that carries out `op`.
pub fn request_for(op: Operation) -> (req: RawRequest)
    ensures
        req@ == request(op),
{
    match op {
        Operation::Status => RawRequest {
            netfn: NETFN_CHASSIS,
            cmd: CMD_CHASSIS_STATUS,
            data: None,
        },
        Operation::Start => {
            let data = vec![POWER_ON];
            assert(data@ =~= seq![POWER_ON]);
            RawRequest { netfn: NETFN_CHASSIS, cmd: CMD_CHASSIS_CONTROL, data: Some(data) }
        },
        Operation::Stop => {
            let data = vec![POWER_OFF];
            assert(data@ =~= seq![POWER_OFF]);
            RawRequest { netfn: NETFN_CHASSIS, cmd: CMD_CHASSIS_CONTROL, data: Some(data) }
        },
    }
}

/// The record of a session with a chassis controller: where it leads, the
/// credentials it was opened with, and when its handshake completed. The
/// live connection itself stays with the caller.
#[derive(Debug, Clone)]
pub struct IpmiClient {
    server_addr: String,
    username: String,
    password: String,
    timestamp: i64,
}

/// The mathematical value of an [`IpmiClient`].
pub struct IpmiClientView {
    pub server_addr: Seq<char>,
    pub username: Seq<char>,
    pub password: Seq<char>,
    /// When the session's handshake completed, in seconds since the epoch.
    pub timestamp: i64,
}

impl View for IpmiClient {
    type V = IpmiClientView;

    closed spec fn view(&self) -> IpmiClientView {
        IpmiClientView {
            server_addr: self.server_addr@,
            username: self.username@,
            password: self.password@,
            timestamp: self.timestamp,
        }
    }
}

impl IpmiClientView {
    /// Whether the session is too old at time `now` to be used as it is.
    pub open spec fn renewal_due(self, now: i64) -> bool {
        now - self.timestamp > CLIENT_RENEW_PERIOD
    }

    /// What a handshake for this session is made with.
    pub open spec fn credentials(self) -> SessionRequestView {
        SessionRequestView {
            server_addr: self.server_addr,
            username: self.username,
            password: self.password,
        }
    }

    /// The session after a renewal, begun at `now`, whose handshake ended as
    /// `handshake`. A completed handshake makes the session one of age zero;
    /// a failed one leaves the session as it was.
    pub open spec fn renew(self, now: i64, handshake: Result<(), Seq<char>>) -> IpmiClientView {
        match handshake {
            Ok(()) => IpmiClientView { timestamp: now, ..self },
            Err(_) => self,
        }
    }
}

/// The session that a handshake ended as `handshake` at time `now` gives:
/// the record of a session of age zero, or the handshake's failure.
pub open spec fn established_client(
    server_addr: Seq<char>,
    username: Seq<char>,
    password: Seq<char>,
    handshake: Result<(), Seq<char>>,
    now: i64,
) -> Result<IpmiClientView, ErrorView> {
    match handshake {
        Ok(()) => Ok(IpmiClientView { server_addr, username, password, timestamp: now }),
        Err(cause) => Err(client_fault(cause)),
    }
}

/// The mathematical value of a session record or the error in its place.
pub open spec fn client_view(client: Result<IpmiClient, Error>) -> Result<
    IpmiClientView,
    ErrorView,
> {
    match client {
        Ok(c) => Ok(c@),
        Err(e) => Err(e@),
    }
}

impl IpmiClient {
    /// The record of the session whose handshake ended as `handshake` at
    /// time `now`. A failed handshake gives no session.
    pub fn established(
        server_addr: String,
        username: String,
        password: String,
        handshake: Result<(), String>,
        now: i64,
    ) -> (client: Result<Self, Error>)
        ensures
            client_view(client) == established_client(
                server_addr@,
                username@,
                password@,
                done_view(handshake),
                now,
            ),
    {
        match handshake {
            Ok(()) => Ok(IpmiClient { server_addr, username, password, timestamp: now }),
            Err(cause) => Err(
                Error::InternalServerError(
                    String::from_str("IPMIClientError: ").concat(cause.as_str()),
                ),
            ),
        }
    }

    /// The record of the session whose handshake has just ended as
    /// `handshake`; the session is stamped with the current time.
    pub fn new(server_addr: String, username: String, password: String, handshake: Result<
        (),
        String,
    >) -> (client: Result<Self, Error>)
        ensures
            exists|now: i64|
                client_view(client) == #[trigger] established_client(
                    server_addr@,
                    username@,
                    password@,
                    done_view(handshake),
                    now,
                ),
    {
        let now = unix_now();
        IpmiClient::established(server_addr, username, password, handshake, now)
    }

    /// Decides whether the session has to be renewed before it is used at
    /// time `now`.
    pub fn renewal_due(&self, now: i64) -> (due: bool)
        ensures
            due == self@.renewal_due(now),
    {
        let age: i128 = now as i128 - self.timestamp as i128;
        age > CLIENT_RENEW_PERIOD as i128
    }

    /// What a handshake for this session is made with.
    pub fn credentials(&self) -> (req: SessionRequest)
        ensures
            req@ == self@.credentials(),
    {
        SessionRequest {
            server_addr: self.server_addr.clone(),
            username: self.username.clone(),
            password: self.password.clone(),
        }
    }

    /// Ends a renewal that began at `now`. Where the handshake completed, the
    /// session counts as established at `now`. Where it failed, the session
    /// stays as it was and the failure is reported.
    pub fn renew(&mut self, now: i64, handshake: Result<(), String>) -> (renewed: Result<
        (),
        Error,
    >)
        ensures
            final(self)@ == old(self)@.renew(now, done_view(handshake)),
            match done_view(handshake) {
                Ok(()) => renewed is Ok,
                Err(cause) => renewed is Err && renewed->Err_0@ == client_fault(cause),
            },
    {
        match handshake {
            Ok(()) => {
                self.timestamp = now;
                Ok(())
            },
            Err(cause) => Err(
                Error::InternalServerError(
                    String::from_str("IPMIClientError: ").concat(cause.as_str()),
                ),
            ),
        }
    }
}

/// A backend that switches its machine through the machine's chassis
/// controller.
#[derive(Debug, Clone)]
pub struct IpmiDriver {
    name: String,
    server_addr: String,
    client: IpmiClient,
}

/// The mathematical value of an [`IpmiDriver`].
pub struct IpmiDriverView {
    pub name: Seq<char>,
    /// The controller's socket address, `host:port`.
    pub server_addr: Seq<char>,
    pub client: IpmiClientView,
}

impl View for IpmiDriver {
    type V = IpmiDriverView;

    closed spec fn view(&self) -> IpmiDriverView {
        IpmiDriverView {
            name: self.name@,
            server_addr: self.server_addr@,
            client: self.client@,
        }
    }
}

impl IpmiDriverView {
    /// The status reported for the machine.
    pub open spec fn report(self, running: bool) -> PowerStatusView {
        PowerStatusView { name: self.name, hostname: self.server_addr, running, reason: None }
    }

    /// What the data of a response to the request of `op` means. A power
    /// request is accepted without reading anything back. A status response
    /// says in its first byte whether the machine runs; one without data is
    /// an error.
    pub open spec fn decode(self, op: Operation, data: Option<Seq<u8>>) -> Result<
        CompletionView,
        ErrorView,
    > {
        match op {
            Operation::Start | Operation::Stop => Ok(CompletionView::Accepted),
            Operation::Status => match data {
                Some(d) if d.len() > 0 => Ok(CompletionView::Status(self.report(d[0] == 0x01))),
                _ => Err(empty_response()),
            },
        }
    }

    /// The first step of operation `op` at time `now`: a handshake where the
    /// session is due for renewal, the request of `op` otherwise.
    pub open spec fn begin(self, op: Operation, now: i64) -> ProgressView {
        if self.client.renewal_due(now) {
            ProgressView::Ask(ExchangeView::Handshake(self.client.credentials()))
        } else {
            ProgressView::Ask(ExchangeView::Chassis(request(op)))
        }
    }

    /// The step of operation `op`, begun at `now`, after `outcome`. A
    /// completed handshake renews the session and is followed by the request
    /// of `op`; a failed one ends the operation. The outcome of the request
    /// ends the operation either way.
    pub open spec fn resume(self, op: Operation, now: i64, outcome: OutcomeView) -> (
        IpmiDriverView,
        ProgressView,
    ) {
        match outcome {
            OutcomeView::Handshake(handshake) => (
                IpmiDriverView { client: self.client.renew(now, handshake), ..self },
                match handshake {
                    Ok(()) => ProgressView::Ask(ExchangeView::Chassis(request(op))),
                    Err(cause) => ProgressView::Finished(Err(client_fault(cause))),
                },
            ),
            OutcomeView::Chassis(Ok(data)) => (self, ProgressView::Finished(self.decode(op, data))),
            OutcomeView::Chassis(Err(cause)) => (
                self,
                ProgressView::Finished(Err(client_fault(cause))),
            ),
            _ => (self, unexpected_outcome()),
        }
    }
}

/// The backend that a first handshake ended as `handshake` at time `now`
/// gives: one with a session of age zero, or the handshake's failure.
pub open spec fn established_driver(
    name: Seq<char>,
    server_addr: Seq<char>,
    username: Seq<char>,
    password: Seq<char>,
    handshake: Result<(), Seq<char>>,
    now: i64,
) -> Result<IpmiDriverView, ErrorView> {
    match established_client(server_addr, username, password, handshake, now) {
        Ok(client) => Ok(IpmiDriverView { name, server_addr, client }),
        Err(e) => Err(e),
    }
}

/// The mathematical value of a backend or the error in its place.
pub open spec fn driver_view(driver: Result<IpmiDriver, Error>) -> Result<
    IpmiDriverView,
    ErrorView,
> {
    match driver {
        Ok(d) => Ok(d@),
        Err(e) => Err(e@),
    }
}

impl IpmiDriver {
    /// A backend under `name` for the controller at `server_addr`, whose
    /// first handshake ended as `handshake` at time `now`. A failed
    /// handshake gives no backend.
    pub fn established(
        name: String,
        server_addr: String,
        username: String,
        password: String,
        handshake: Result<(), String>,
        now: i64,
    ) -> (driver: Result<Self, Error>)
        ensures
            driver_view(driver) == established_driver(
                name@,
                server_addr@,
                username@,
                password@,
                done_view(handshake),
                now,
            ),
    {
        let addr = server_addr.clone();
        match IpmiClient::established(addr, username, password, handshake, now) {
            Ok(client) => Ok(IpmiDriver { name, server_addr, client }),
            Err(e) => Err(e),
        }
    }

    /// A backend under `name` for the controller at `server_addr`, whose
    /// first handshake has just ended as `handshake`.
    pub fn new(
        name: String,
        server_addr: String,
        username: String,
        password: String,
        handshake: Result<(), String>,
    ) -> (driver: Result<Self, Error>)
        ensures
            exists|now: i64|
                driver_view(driver) == #[trigger] established_driver(
                    name@,
                    server_addr@,
                    username@,
                    password@,
                    done_view(handshake),
                    now,
                ),
    {
        let now = unix_now();
        IpmiDriver::established(name, server_addr, username, password, handshake, now)
    }

    /// The backend's identifier.
    pub fn name(&self) -> (name: &String)
        ensures
            name@ == self@.name,
    {
        &self.name
    }

    /// The record of the backend's session.
    pub fn client(&self) -> (client: &IpmiClient)
        ensures
            client@ == self@.client,
    {
        &self.client
    }

    /// Reads the data of a response to the request of `op`.
    pub fn decode(&self, op: Operation, data: Option<Vec<u8>>) -> (result: Result<
        Completion,
        Error,
    >)
        ensures
            match result {
                Ok(c) => self@.decode(op, data_view(data)) == Ok::<CompletionView, ErrorView>(c@),
                Err(e) => self@.decode(op, data_view(data)) == Err::<CompletionView, ErrorView>(
                    e@,
                ),
            },
    {
        match op {
            Operation::Start | Operation::Stop => Ok(Completion::Accepted),
            Operation::Status => {
                let running = match data {
                    Some(d) => if d.len() > 0 {
                        Some(d[0] == 0x01)
                    } else {
                        None
                    },
                    None => None,
                };
                match running {
                    Some(running) => Ok(
                        Completion::Status(
                            PowerStatus {
                                name: self.name.clone(),
                                hostname: self.server_addr.clone(),
                                running,
                                reason: None,
                            },
                        ),
                    ),
                    None => Err(
                        Error::InternalServerError(
                            String::from_str("Invalid response received: data is empty"),
                        ),
                    ),
                }
            },
        }
    }

    /// The first step of operation `op` at time `now`.
    pub fn begin(&self, op: Operation, now: i64) -> (p: Progress)
        ensures
            p@ == self@.begin(op, now),
    {
        if self.client.renewal_due(now) {
            Progress::Ask(Exchange::Handshake(self.client.credentials()))
        } else {
            Progress::Ask(Exchange::Chassis(request_for(op)))
        }
    }
}

impl PowerManagerTrait for IpmiDriver {
    open spec fn model(&self) -> BackendView {
        BackendView::Ipmi(self@)
    }

    fn start(&mut self, now: i64) -> (p: Progress) {
        self.begin(Operation::Start, now)
    }

    fn status(&mut self, now: i64) -> (p: Progress) {
        self.begin(Operation::Status, now)
    }

    fn stop(&mut self, now: i64) -> (p: Progress) {
        self.begin(Operation::Stop, now)
    }

    fn resume(&mut self, call: &Call, outcome: Outcome) -> (p: Progress) {
        match outcome {
            Outcome::Handshake(handshake) => match self.client.renew(call.at, handshake) {
                Ok(()) => Progress::Ask(Exchange::Chassis(request_for(call.op))),
                Err(e) => Progress::Finished(Err(e)),
            },
            Outcome::Chassis(Ok(data)) => Progress::Finished(self.decode(call.op, data)),
            Outcome::Chassis(Err(cause)) => Progress::Finished(
                Err(
                    Error::InternalServerError(
                        String::from_str("IPMIClientError: ").concat(cause.as_str()),
                    ),
                ),
            ),
            _ => reject_outcome(),
        }
    }
}

/// A session that is within its period at the time of a call is used as it
/// is: the call sends its request at once, and no outcome of the request
/// changes the session. A second call within the session's period does the
/// same, over the same session.
pub proof fn law_session_in_period_is_reused(
    i: IpmiDriverView,
    first: Operation,
    t1: i64,
    response: Result<Option<Seq<u8>>, Seq<char>>,
    second: Operation,
    t2: i64,
)
    requires
        t1 - i.client.timestamp <= CLIENT_RENEW_PERIOD,
        t2 - i.client.timestamp <= CLIENT_RENEW_PERIOD,
    ensures
        i.begin(first, t1) == ProgressView::Ask(ExchangeView::Chassis(request(first))),
        i.resume(first, t1, OutcomeView::Chassis(response)).0 == i,
        i.begin(second, t2) == ProgressView::Ask(ExchangeView::Chassis(request(second))),
{
}

/// A session that is past its period at the time of a call is renewed
/// exactly once before the call proceeds. The call asks for a handshake.
/// When the handshake has completed, the session counts as established at
/// the time of the call, and the call sends its request, not another
/// handshake. When the handshake has failed, the call ends with the failure
/// and the session is as it was.
pub proof fn law_stale_session_is_renewed_once(
    i: IpmiDriverView,
    op: Operation,
    now: i64,
    cause: Seq<char>,
)
    requires
        now - i.client.timestamp > CLIENT_RENEW_PERIOD,
    ensures
        i.begin(op, now) == ProgressView::Ask(ExchangeView::Handshake(i.client.credentials())),
        i.resume(op, now, OutcomeView::Handshake(Ok(()))).1 == ProgressView::Ask(
            ExchangeView::Chassis(request(op)),
        ),
        i.resume(op, now, OutcomeView::Handshake(Ok(()))).0.client == (IpmiClientView {
            timestamp: now,
            ..i.client
        }),
        !i.resume(op, now, OutcomeView::Handshake(Ok(()))).0.client.renewal_due(now),
        i.resume(op, now, OutcomeView::Handshake(Err(cause))) == (
            i,
            ProgressView::Finished(Err(client_fault(cause))),
        ),
{
}

/// A call made within the renewal period after a renewal uses the renewed
/// session: it sends its request at once.
pub proof fn law_renewed_session_is_reused(
    i: IpmiDriverView,
    first: Operation,
    t1: i64,
    second: Operation,
    t2: i64,
)
    requires
        t2 - t1 <= CLIENT_RENEW_PERIOD,
    ensures
        i.resume(first, t1, OutcomeView::Handshake(Ok(()))).0.begin(second, t2)
            == ProgressView::Ask(ExchangeView::Chassis(request(second))),
{
}

/// How a status response is read. A first byte of `0x01` says that the
/// machine runs; any other first byte says that it does not; neither gives a
/// reason. A response without data, or with none at all, is an error.
pub proof fn law_status_decoding(i: IpmiDriverView, data: Seq<u8>)
    ensures
        data.len() > 0 && data[0] == 0x01 ==> i.decode(Operation::Status, Some(data)) == Ok::<
            CompletionView,
            ErrorView,
        >(
            CompletionView::Status(
                PowerStatusView {
                    name: i.name,
                    hostname: i.server_addr,
                    running: true,
                    reason: None,
                },
            ),
        ),
        data.len() > 0 && data[0] != 0x01 ==> i.decode(Operation::Status, Some(data)) == Ok::<
            CompletionView,
            ErrorView,
        >(
            CompletionView::Status(
                PowerStatusView {
                    name: i.name,
                    hostname: i.server_addr,
                    running: false,
                    reason: None,
                },
            ),
        ),
        data.len() == 0 ==> i.decode(Operation::Status, Some(data)) == Err::<
            CompletionView,
            ErrorView,
        >(empty_response()),
        i.decode(Operation::Status, None) == Err::<CompletionView, ErrorView>(empty_response()),
{
}

} // verus!
