//! The debug backend: a power flag held in memory. It needs no network
//! traffic and serves to exercise dispatch and the serving layer without
//! hardware.

use vstd::prelude::*;

use crate::drivers::traits::{
    reject_outcome, unexpected_outcome, Call, Completion, CompletionView, Operation, Outcome,
    PowerManagerTrait, PowerStatus, PowerStatusView, Progress, ProgressView,
};
use crate::drivers::BackendView;

verus! {

/// A backend that only remembers whether it was last started or stopped.
#[derive(Debug, Clone)]
pub struct DebugDriver {
    name: String,
    status: bool,
}

/// The mathematical value of a [`DebugDriver`].
pub struct DebugDriverView {
    pub name: Seq<char>,
    /// Whether the pretended machine is on.
    pub status: bool,
}

impl View for DebugDriver {
    type V = DebugDriverView;

    closed spec fn view(&self) -> DebugDriverView {
        DebugDriverView { name: self.name@, status: self.status }
    }
}

impl DebugDriverView {
    /// What the backend reports: the flag, under a fixed host name.
    pub open spec fn report(self) -> PowerStatusView {
        PowerStatusView {
            name: self.name,
            hostname: "dummy1.example.com"@,
            running: self.status,
            reason: None,
        }
    }

    /// The first step of an operation: the backend afterwards, and where the
    /// operation stands. Every operation is over at once.
    pub open spec fn begin(self, op: Operation) -> (DebugDriverView, ProgressView) {
        match op {
            Operation::Start => (
                DebugDriverView { status: true, ..self },
                ProgressView::Finished(Ok(CompletionView::Accepted)),
            ),
            Operation::Stop => (
                DebugDriverView { status: false, ..self },
                ProgressView::Finished(Ok(CompletionView::Accepted)),
            ),
            Operation::Status => (
                self,
                ProgressView::Finished(Ok(CompletionView::Status(self.report()))),
            ),
        }
    }

    /// The step after an outcome. The backend asks for no exchange, so every
    /// outcome is unexpected.
    pub open spec fn resume(self) -> (DebugDriverView, ProgressView) {
        (self, unexpected_outcome())
    }
}

impl DebugDriver {
    /// A backend under `name`, switched off.
    pub fn new(name: String) -> (driver: Self)
        ensures
            driver@ == (DebugDriverView { name: name@, status: false }),
    {
        DebugDriver { name, status: false }
    }

    /// The backend's identifier.
    pub fn name(&self) -> (name: &String)
        ensures
            name@ == self@.name,
    {
        &self.name
    }
}

impl PowerManagerTrait for DebugDriver {
    open spec fn model(&self) -> BackendView {
        BackendView::Debug(self@)
    }

    fn start(&mut self, now: i64) -> (p: Progress) {
        self.status = true;
        Progress::Finished(Ok(Completion::Accepted))
    }

    fn status(&mut self, now: i64) -> (p: Progress) {
        Progress::Finished(
            Ok(
                Completion::Status(
                    PowerStatus {
                        name: self.name.clone(),
                        hostname: String::from_str("dummy1.example.com"),
                        running: self.status,
                        reason: None,
                    },
                ),
            ),
        )
    }

    fn stop(&mut self, now: i64) -> (p: Progress) {
        self.status = false;
        Progress::Finished(Ok(Completion::Accepted))
    }

    fn resume(&mut self, call: &Call, outcome: Outcome) -> (p: Progress) {
        reject_outcome()
    }
}

/// A debug backend reports what it was last asked for: that it runs after a
/// start, that it does not after a stop, and that it does not before either.
pub proof fn law_debug_reports_last_request(d: DebugDriverView, name: Seq<char>)
    ensures
        d.begin(Operation::Start).0.begin(Operation::Status).1 == ProgressView::Finished(
            Ok(
                CompletionView::Status(
                    PowerStatusView {
                        name: d.name,
                        hostname: "dummy1.example.com"@,
                        running: true,
                        reason: None,
                    },
                ),
            ),
        ),
        d.begin(Operation::Stop).0.begin(Operation::Status).1 == ProgressView::Finished(
            Ok(
                CompletionView::Status(
                    PowerStatusView {
                        name: d.name,
                        hostname: "dummy1.example.com"@,
                        running: false,
                        reason: None,
                    },
                ),
            ),
        ),
        (DebugDriverView { name, status: false }).begin(Operation::Status).1
            == ProgressView::Finished(
            Ok(
                CompletionView::Status(
                    PowerStatusView {
                        name,
                        hostname: "dummy1.example.com"@,
                        running: false,
                        reason: None,
                    },
                ),
            ),
        ),
{
}

} // verus!
