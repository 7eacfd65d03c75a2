//! Filling the registry from the configuration. Debug and Wake-on-LAN
//! backends are made on the spot. An IPMI backend exists only once its first
//! handshake has completed, so the work stops at each IPMI entry until the
//! caller has carried the handshake out. The first entry that cannot be set
//! up ends the work: there is no registry of the entries that could.

use vstd::prelude::*;

use crate::cmd::{driver_views, Config, DriverType, DriverTypeView};
use crate::drivers::debug::{DebugDriver, DebugDriverView};
use crate::drivers::ipmi::{client_fault, done_view, IpmiClientView, IpmiDriver, IpmiDriverView};
use crate::drivers::traits::{unix_now, SessionRequest, SessionRequestView};
use crate::drivers::wake_on_lan::{
    mac_octets, magic_packet, wol_fault, WakeOnLanDriver, WakeOnLanDriverView,
};
use crate::drivers::{Backend, BackendView};
use crate::registry::Registry;
use crate::{Error, ErrorView};

verus! {

/// A registry in the making: the entries, how many of them are done, and
/// the backends registered so far. The entry that is next is an IPMI entry
/// whose handshake is awaited.
#[derive(Debug)]
pub struct Startup {
    drivers: Vec<DriverType>,
    next: usize,
    registry: Registry,
}

/// The mathematical value of a [`Startup`].
pub struct StartupView {
    pub drivers: Seq<DriverTypeView>,
    pub next: int,
    pub registry: Map<Seq<char>, BackendView>,
}

/// Where the making of the registry stands.
#[derive(Debug)]
pub enum StartupStep {
    /// The caller carries out this handshake and resumes with how it ended.
    Ask(SessionRequest, Startup),
    /// Every entry has its backend.
    Ready(Registry),
    /// An entry could not be set up.
    Failed(Error),
}

/// The mathematical value of a [`StartupStep`].
pub enum StartupStepView {
    Ask(SessionRequestView, StartupView),
    Ready(Map<Seq<char>, BackendView>),
    Failed(ErrorView),
}

impl View for Startup {
    type V = StartupView;

    closed spec fn view(&self) -> StartupView {
        StartupView {
            drivers: driver_views(self.drivers@),
            next: self.next as int,
            registry: self.registry@,
        }
    }
}

impl View for StartupStep {
    type V = StartupStepView;

    open spec fn view(&self) -> StartupStepView {
        match self {
            StartupStep::Ask(req, startup) => StartupStepView::Ask(req@, startup@),
            StartupStep::Ready(registry) => StartupStepView::Ready(registry@),
            StartupStep::Failed(e) => StartupStepView::Failed(e@),
        }
    }
}

/// The debug backend that a configuration entry named `name` stands for.
pub open spec fn debug_backend(name: Seq<char>) -> BackendView {
    BackendView::Debug(DebugDriverView { name, status: false })
}

/// The Wake-on-LAN backend that a configuration entry stands for.
pub open spec fn wol_backend(name: Seq<char>, mac_addr: Seq<char>, ip_addr: Seq<char>) -> BackendView {
    BackendView::WakeOnLan(
        WakeOnLanDriverView { name, packet: magic_packet(mac_octets(mac_addr)), ip_addr },
    )
}

/// The IPMI backend that a configuration entry stands for, once its
/// handshake has completed at time `now`.
pub open spec fn ipmi_backend(
    name: Seq<char>,
    server_addr: Seq<char>,
    username: Seq<char>,
    password: Seq<char>,
    now: i64,
) -> BackendView {
    BackendView::Ipmi(
        IpmiDriverView {
            name,
            server_addr,
            client: IpmiClientView { server_addr, username, password, timestamp: now },
        },
    )
}

/// The making of the registry from entry `next` on, with `registry` holding
/// the backends of the entries before it. Each backend is registered under
/// its name, in the place of any registered under that name before. The
/// work stops at the first IPMI entry, to ask for its handshake; it fails at
/// the first Wake-on-LAN entry whose IP address or MAC address is none.
pub open spec fn build(
    drivers: Seq<DriverTypeView>,
    next: int,
    registry: Map<Seq<char>, BackendView>,
) -> StartupStepView
    decreases drivers.len() - next,
{
    if next < 0 || next >= drivers.len() {
        StartupStepView::Ready(registry)
    } else {
        match drivers[next] {
            DriverTypeView::Debug(c) => build(
                drivers,
                next + 1,
                registry.insert(c.name, debug_backend(c.name)),
            ),
            DriverTypeView::Wol(c) => match wol_fault(c.mac_addr, c.ip_addr) {
                None => build(
                    drivers,
                    next + 1,
                    registry.insert(c.name, wol_backend(c.name, c.mac_addr, c.ip_addr)),
                ),
                Some(text) => StartupStepView::Failed(ErrorView::InternalServerError(text)),
            },
            DriverTypeView::Ipmi(c) => StartupStepView::Ask(
                SessionRequestView {
                    server_addr: c.server_addr,
                    username: c.username,
                    password: c.password,
                },
                StartupView { drivers, next, registry },
            ),
        }
    }
}

impl StartupView {
    /// The name of the IPMI entry whose handshake is awaited.
    pub open spec fn awaited(self) -> Seq<char> {
        match self.drivers[self.next] {
            DriverTypeView::Debug(c) => c.name,
            DriverTypeView::Ipmi(c) => c.name,
            DriverTypeView::Wol(c) => c.name,
        }
    }

    /// The making of the registry after the awaited handshake has ended as
    /// `handshake` at time `now`. A completed handshake registers the IPMI
    /// backend and the work goes on with the next entry; a failed one ends
    /// the work.
    pub open spec fn resume(self, handshake: Result<(), Seq<char>>, now: i64) -> StartupStepView {
        match handshake {
            Ok(()) => build(self.drivers, self.next + 1, self.registered(now)),
            Err(cause) => StartupStepView::Failed(client_fault(cause)),
        }
    }

    /// The backends registered once the awaited handshake has completed at
    /// time `now`.
    pub open spec fn registered(self, now: i64) -> Map<Seq<char>, BackendView> {
        match self.drivers[self.next] {
            DriverTypeView::Ipmi(c) => self.registry.insert(
                c.name,
                ipmi_backend(c.name, c.server_addr, c.username, c.password, now),
            ),
            _ => self.registry,
        }
    }
}

/// Goes on from entry `next`, with the backends registered so far.
fn run(drivers: Vec<DriverType>, next: usize, registry: Registry) -> (step: StartupStep)
    requires
        next <= drivers.len(),
    ensures
        step@ == build(driver_views(drivers@), next as int, registry@),
{
    let ghost entries = driver_views(drivers@);
    let mut made = registry;
    let mut i = next;
    while i < drivers.len()
        invariant
            i <= drivers.len(),
            entries == driver_views(drivers@),
            build(entries, i as int, made@) == build(entries, next as int, registry@),
        decreases drivers.len() - i,
    {
        assert(entries[i as int] == drivers[i as int]@);
        let request = match &drivers[i] {
            DriverType::Debug(c) => {
                made.insert(Backend::Debug(DebugDriver::new(c.name.clone())));
                None
            },
            DriverType::Wol(c) => {
                match WakeOnLanDriver::new(c.name.clone(), c.mac_addr.as_str(), c.ip_addr.clone()) {
                    Ok(driver) => {
                        made.insert(Backend::WakeOnLan(driver));
                    },
                    Err(e) => {
                        return StartupStep::Failed(e);
                    },
                }
                None
            },
            DriverType::Ipmi(c) => Some(
                SessionRequest {
                    server_addr: c.server_addr.clone(),
                    username: c.username.clone(),
                    password: c.password.clone(),
                },
            ),
        };
        match request {
            Some(request) => {
                return StartupStep::Ask(request, Startup { drivers, next: i, registry: made });
            },
            None => {},
        }
        i = i + 1;
    }
    StartupStep::Ready(made)
}

impl Registry {
    /// Begins to make the registry that `config` describes.
    pub fn from_config(config: Config) -> (step: StartupStep)
        ensures
            step@ == build(
                driver_views(config.drivers@),
                0,
                Map::<Seq<char>, BackendView>::empty(),
            ),
    {
        run(config.drivers, 0, Registry::new())
    }
}

impl Startup {
    #[verifier::type_invariant]
    spec fn well_formed(&self) -> bool {
        &&& self.next < self.drivers.len()
        &&& self.drivers[self.next as int] is Ipmi
    }

    /// The name of the IPMI entry whose handshake is awaited.
    pub fn awaited(&self) -> (name: &String)
        ensures
            name@ == self@.awaited(),
            self@.drivers[self@.next] is Ipmi,
    {
        proof {
            use_type_invariant(self);
        }
        assert(driver_views(self.drivers@)[self.next as int] == self.drivers[self.next as int]@);
        match &self.drivers[self.next] {
            DriverType::Debug(c) => &c.name,
            DriverType::Ipmi(c) => &c.name,
            DriverType::Wol(c) => &c.name,
        }
    }

    /// Goes on after the awaited handshake has ended as `handshake` at time
    /// `now`.
    pub fn resume_at(self, handshake: Result<(), String>, now: i64) -> (step: StartupStep)
        ensures
            step@ == self@.resume(done_view(handshake), now),
    {
        proof {
            use_type_invariant(&self);
        }
        let Startup { drivers, next, registry } = self;
        let mut registry = registry;
        assert(driver_views(drivers@)[next as int] == drivers[next as int]@);
        let made = match &drivers[next] {
            DriverType::Ipmi(c) => IpmiDriver::established(
                c.name.clone(),
                c.server_addr.clone(),
                c.username.clone(),
                c.password.clone(),
                handshake,
                now,
            ),
            _ => {
                proof {
                    assert(false);
                }
                vstd::pervasive::unreached()
            },
        };
        match made {
            Ok(driver) => {
                registry.insert(Backend::Ipmi(driver));
                run(drivers, next + 1, registry)
            },
            Err(e) => StartupStep::Failed(e),
        }
    }

    /// Goes on after the awaited handshake has just ended as `handshake`:
    /// as `resume_at` does at the time the clock shows.
    pub fn resume(self, handshake: Result<(), String>) -> (step: StartupStep)
        ensures
            exists|now: i64| step@ == #[trigger] self@.resume(done_view(handshake), now),
    {
        let now = unix_now();
        self.resume_at(handshake, now)
    }
}

/// Whether entry `i` is a Wake-on-LAN entry whose IP address or MAC address
/// is none.
pub open spec fn bad_address_at(drivers: Seq<DriverTypeView>, i: int) -> bool {
    drivers[i] matches DriverTypeView::Wol(c) && wol_fault(c.mac_addr, c.ip_addr) is Some
}

/// Where no entry from `next` on is an IPMI entry, the registry is made
/// without any handshake: it fails exactly when one of these entries is a
/// Wake-on-LAN entry whose IP address or MAC address is none, and is ready
/// otherwise.
pub proof fn law_startup_rests_on_addresses(
    drivers: Seq<DriverTypeView>,
    next: int,
    registry: Map<Seq<char>, BackendView>,
)
    requires
        0 <= next <= drivers.len(),
        forall|i: int| next <= i < drivers.len() ==> !(#[trigger] drivers[i] is Ipmi),
    ensures
        build(drivers, next, registry) is Failed <==> exists|i: int|
            next <= i < drivers.len() && #[trigger] bad_address_at(drivers, i),
        !(build(drivers, next, registry) is Failed) ==> build(drivers, next, registry) is Ready,
    decreases drivers.len() - next,
{
    if next < drivers.len() {
        assert(!(drivers[next] is Ipmi));
        if bad_address_at(drivers, next) {
        } else {
            let after = match drivers[next] {
                DriverTypeView::Debug(c) => registry.insert(c.name, debug_backend(c.name)),
                DriverTypeView::Wol(c) => registry.insert(
                    c.name,
                    wol_backend(c.name, c.mac_addr, c.ip_addr),
                ),
                DriverTypeView::Ipmi(c) => registry,
            };
            law_startup_rests_on_addresses(drivers, next + 1, after);
            assert(build(drivers, next, registry) == build(drivers, next + 1, after));
            if exists|i: int| next <= i < drivers.len() && #[trigger] bad_address_at(drivers, i) {
                let i = choose|i: int| next <= i < drivers.len() && #[trigger] bad_address_at(drivers, i);
                assert(next + 1 <= i < drivers.len() && bad_address_at(drivers, i));
            }
        }
    }
}

} // verus!
