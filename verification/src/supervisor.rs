//! The supervisor of the backend worker.
//!
//! One worker is supervised at a time. The supervisor holds the handle of the
//! worker that was started last and answers whether the backend runs.
//!
//! Two limitations are deliberate. A restart does not stop the worker that
//! ran before: its relay goes on until its own channel closes, and the two
//! processes may compete for the port. And the running flag is raised by a
//! start and never lowered: after the worker has exited, the status still
//! reads `true`. Both are open questions of the product, and this crate
//! takes no side in them.

use crate::launch::{OutcomeView, SpawnOutcome};
use crate::relay::EventRelay;
use vstd::prelude::*;
use vstd::string::StringExecFns;

verus! {

/// Opens the reason of a failure to locate the worker executable.
pub const NOT_LOCATED_PREFIX: &'static str = "无法创建 sidecar: ";

/// Opens the reason of a failure to start the worker executable.
pub const NOT_STARTED_PREFIX: &'static str = "无法启动后端: ";

/// Message that confirms a restart.
pub const RESTARTED_MESSAGE: &'static str = "后端已重启";

/// Why the worker did not start.
#[derive(Clone, Debug, PartialEq, Eq)]
pub enum StartError {
    /// The worker executable could not be located or started.
    SpawnFailed(String),
}

impl StartError {
    /// The description of the failure.
    pub open spec fn reason(&self) -> Seq<char> {
        match self {
            StartError::SpawnFailed(reason) => reason@,
        }
    }

    /// The description of the failure, for a caller that wants text.
    pub fn into_reason(self) -> (text: String)
        ensures
            text@ == self.reason(),
    {
        match self {
            StartError::SpawnFailed(reason) => reason,
        }
    }
}

/// Handle of a worker process: its identifier and its liveness flag.
#[derive(Clone, Copy, Debug, PartialEq, Eq)]
pub struct WorkerHandle {
    pub pid: u32,
    pub running: bool,
}

impl WorkerHandle {
    /// Whether the worker counts as running.
    pub fn is_running(&self) -> (running: bool)
        ensures
            running == self.running,
    {
        self.running
    }
}

/// The reason with which a start fails on `outcome`, if it fails.
pub open spec fn failure_reason(outcome: OutcomeView) -> Option<Seq<char>> {
    match outcome {
        OutcomeView::Spawned { .. } => None,
        OutcomeView::NotLocated(detail) => Some(NOT_LOCATED_PREFIX@ + detail),
        OutcomeView::NotStarted(detail) => Some(NOT_STARTED_PREFIX@ + detail),
    }
}

/// The supervisor's state: the handle of the current worker, if one was started.
#[derive(Debug)]
pub struct Supervisor {
    worker: Option<WorkerHandle>,
}

/// What a successful restart hands back.
#[derive(Debug)]
pub struct Restarted {
    /// Confirmation for the caller.
    pub message: String,
    /// The relay of the new worker instance.
    pub relay: EventRelay,
}

impl Supervisor {
    /// The handle of the current worker.
    pub closed spec fn worker(&self) -> Option<WorkerHandle> {
        self.worker
    }

    /// Whether the backend counts as running: a worker was started and its
    /// flag is up.
    pub open spec fn running(&self) -> bool {
        match self.worker() {
            Some(handle) => handle.running,
            None => false,
        }
    }

    /// The state after a start that came to `outcome`: a worker that runs
    /// takes the place of any earlier one, a failure changes nothing.
    pub open spec fn after_start(&self, outcome: OutcomeView) -> Option<WorkerHandle> {
        match outcome {
            OutcomeView::Spawned { pid } => Some(WorkerHandle { pid, running: true }),
            _ => self.worker(),
        }
    }

    /// A supervisor that has started no worker yet.
    pub fn new() -> (supervisor: Self)
        ensures
            supervisor.worker() is None,
    {
        Supervisor { worker: None }
    }

    /// The handle of the current worker.
    pub fn current_worker(&self) -> (handle: Option<WorkerHandle>)
        ensures
            handle == self.worker(),
    {
        self.worker
    }

    /// Whether the backend counts as running.
    pub fn status(&self) -> (running: bool)
        ensures
            running == self.running(),
    {
        match &self.worker {
            Some(handle) => handle.is_running(),
            None => false,
        }
    }

    /// Completes a start of the worker, given what the launch attempt came to.
    ///
    /// If the process runs, its handle is installed in place of any earlier
    /// one, with the running flag up, and the one relay of the new instance is
    /// handed back, live. If the attempt failed, the failure is returned with
    /// its reason and the supervisor is left as it was; no relay exists.
    pub fn start(&mut self, outcome: SpawnOutcome) -> (result: Result<EventRelay, StartError>)
        ensures
            final(self).worker() == old(self).after_start(outcome@),
            match result {
                Ok(relay) => {
                    &&& outcome@ matches OutcomeView::Spawned { pid }
                    &&& relay.worker() == pid
                    &&& !relay.finished()
                },
                Err(error) => failure_reason(outcome@) == Some(error.reason()),
            },
            result is Ok ==> final(self).running(),
            result is Err ==> *final(self) == *old(self),
    {
        match outcome {
            SpawnOutcome::Spawned { pid } => {
                self.worker = Some(WorkerHandle { pid, running: true });
                Ok(EventRelay::attach(pid))
            },
            SpawnOutcome::NotLocated(detail) => {
                let reason = String::from_str(NOT_LOCATED_PREFIX).concat(detail.as_str());
                Err(StartError::SpawnFailed(reason))
            },
            SpawnOutcome::NotStarted(detail) => {
                let reason = String::from_str(NOT_STARTED_PREFIX).concat(detail.as_str());
                Err(StartError::SpawnFailed(reason))
            },
        }
    }

    /// Starts the worker again, given what the launch attempt came to. The
    /// worker that ran before is not stopped.
    ///
    /// Succeeds and fails as [`Supervisor::start`] does, and confirms a
    /// success with a message.
    pub fn restart(&mut self, outcome: SpawnOutcome) -> (result: Result<Restarted, StartError>)
        ensures
            final(self).worker() == old(self).after_start(outcome@),
            match result {
                Ok(restarted) => {
                    &&& outcome@ matches OutcomeView::Spawned { pid }
                    &&& restarted.relay.worker() == pid
                    &&& !restarted.relay.finished()
                    &&& restarted.message@ == RESTARTED_MESSAGE@
                },
                Err(error) => failure_reason(outcome@) == Some(error.reason()),
            },
            result is Ok ==> final(self).running(),
            result is Err ==> *final(self) == *old(self),
    {
        match self.start(outcome) {
            Ok(relay) => Ok(Restarted { message: String::from_str(RESTARTED_MESSAGE), relay }),
            Err(error) => Err(error),
        }
    }
}

/// No start lowers the status: once the backend counts as running, it does
/// so after every later start and restart, whatever the attempt came to.
pub proof fn lemma_start_never_lowers_status(supervisor: Supervisor, outcome: OutcomeView)
    requires
        supervisor.running(),
    ensures
        supervisor.after_start(outcome) matches Some(handle) && handle.running,
{
}

/// A start fails exactly on the outcomes that are no running process, and a
/// failed start leaves the handle of the current worker in place.
pub proof fn lemma_failed_start_keeps_worker(supervisor: Supervisor, outcome: OutcomeView)
    ensures
        failure_reason(outcome) is Some <==> !(outcome is Spawned),
        failure_reason(outcome) is Some ==> supervisor.after_start(outcome) == supervisor.worker(),
{
}

} // verus!
