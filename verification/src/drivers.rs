//! The backends and the closed set they form.

use vstd::prelude::*;

use crate::drivers::debug::{DebugDriver, DebugDriverView};
use crate::drivers::ipmi::{IpmiDriver, IpmiDriverView};
use crate::drivers::traits::{
    Call, Operation, Outcome, OutcomeView, PowerManagerTrait, Progress, ProgressView,
};
use crate::drivers::wake_on_lan::{WakeOnLanDriver, WakeOnLanDriverView};

pub mod address;
pub mod debug;
pub mod ipmi;
pub mod traits;
pub mod wake_on_lan;

verus! {

/// A backend of one of the three kinds. Each owns its state alone.
#[derive(Debug, Clone)]
pub enum Backend {
    Debug(DebugDriver),
    Ipmi(IpmiDriver),
    WakeOnLan(WakeOnLanDriver),
}

/// The mathematical value of a backend of any kind.
pub enum BackendView {
    Debug(DebugDriverView),
    Ipmi(IpmiDriverView),
    WakeOnLan(WakeOnLanDriverView),
}

impl View for Backend {
    type V = BackendView;

    open spec fn view(&self) -> BackendView {
        match self {
            Backend::Debug(d) => BackendView::Debug(d@),
            Backend::Ipmi(i) => BackendView::Ipmi(i@),
            Backend::WakeOnLan(w) => BackendView::WakeOnLan(w@),
        }
    }
}

impl BackendView {
    /// The name the backend is registered and reported under.
    pub open spec fn name(self) -> Seq<char> {
        match self {
            BackendView::Debug(d) => d.name,
            BackendView::Ipmi(i) => i.name,
            BackendView::WakeOnLan(w) => w.name,
        }
    }

    /// The first step of operation `op`, begun at time `now` (seconds since
    /// the epoch): the backend afterwards, and where the operation stands.
    pub open spec fn begin(self, op: Operation, now: i64) -> (BackendView, ProgressView) {
        match self {
            BackendView::Debug(d) => (BackendView::Debug(d.begin(op).0), d.begin(op).1),
            BackendView::Ipmi(i) => (self, i.begin(op, now)),
            BackendView::WakeOnLan(w) => (self, w.begin(op)),
        }
    }

    /// The step of operation `op`, begun at `now`, that follows `outcome`:
    /// the backend afterwards, and where the operation stands.
    pub open spec fn resume(self, op: Operation, now: i64, outcome: OutcomeView) -> (
        BackendView,
        ProgressView,
    ) {
        match self {
            BackendView::Debug(d) => (BackendView::Debug(d.resume().0), d.resume().1),
            BackendView::Ipmi(i) => (
                BackendView::Ipmi(i.resume(op, now, outcome).0),
                i.resume(op, now, outcome).1,
            ),
            BackendView::WakeOnLan(w) => (self, w.resume(op, outcome)),
        }
    }
}

impl Backend {
    /// The name the backend is registered and reported under.
    pub fn name(&self) -> (name: &String)
        ensures
            name@ == self@.name(),
    {
        match self {
            Backend::Debug(d) => d.name(),
            Backend::Ipmi(i) => i.name(),
            Backend::WakeOnLan(w) => w.name(),
        }
    }

    /// The first step of `call`.
    pub fn begin(&mut self, call: &Call) -> (p: Progress)
        ensures
            final(self)@ == old(self)@.begin(call.op, call.at).0,
            p@ == old(self)@.begin(call.op, call.at).1,
    {
        match call.op {
            Operation::Start => self.start(call.at),
            Operation::Status => self.status(call.at),
            Operation::Stop => self.stop(call.at),
        }
    }
}

impl PowerManagerTrait for Backend {
    open spec fn model(&self) -> BackendView {
        self@
    }

    fn start(&mut self, now: i64) -> (p: Progress) {
        match self {
            Backend::Debug(d) => d.start(now),
            Backend::Ipmi(i) => i.start(now),
            Backend::WakeOnLan(w) => w.start(now),
        }
    }

    fn status(&mut self, now: i64) -> (p: Progress) {
        match self {
            Backend::Debug(d) => d.status(now),
            Backend::Ipmi(i) => i.status(now),
            Backend::WakeOnLan(w) => w.status(now),
        }
    }

    fn stop(&mut self, now: i64) -> (p: Progress) {
        match self {
            Backend::Debug(d) => d.stop(now),
            Backend::Ipmi(i) => i.stop(now),
            Backend::WakeOnLan(w) => w.stop(now),
        }
    }

    fn resume(&mut self, call: &Call, outcome: Outcome) -> (p: Progress) {
        match self {
            Backend::Debug(d) => d.resume(call, outcome),
            Backend::Ipmi(i) => i.resume(call, outcome),
            Backend::WakeOnLan(w) => w.resume(call, outcome),
        }
    }
}

/// No step of an operation changes the name of a backend.
pub proof fn lemma_steps_keep_name(b: BackendView, op: Operation, now: i64, outcome: OutcomeView)
    ensures
        b.begin(op, now).0.name() == b.name(),
        b.resume(op, now, outcome).0.name() == b.name(),
{
}

} // verus!
