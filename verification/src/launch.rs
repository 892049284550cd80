//! How the worker process is launched, and what a launch attempt came to.

use vstd::prelude::*;
use vstd::string::StringExecFns;

verus! {

/// Name under which the worker executable is bundled with the application.
pub const WORKER_PROGRAM: &'static str = "PhantomHandBackend";

/// Command-line flag that announces the port on which the worker listens.
pub const PORT_FLAG: &'static str = "--port";

/// The fixed port on which the worker listens, as it stands on the command line.
pub const PORT_VALUE: &'static str = "8765";

/// Launch specification of the worker: which executable, with which arguments.
#[derive(Clone, Debug, PartialEq, Eq)]
pub struct LaunchSpec {
    pub program: String,
    pub args: Vec<String>,
}

impl LaunchSpec {
    /// Whether this is the worker's launch: the bundled executable with the
    /// argument pair that fixes its port.
    pub open spec fn is_worker_launch(&self) -> bool {
        &&& self.program@ == WORKER_PROGRAM@
        &&& self.args@.len() == 2
        &&& self.args@[0]@ == PORT_FLAG@
        &&& self.args@[1]@ == PORT_VALUE@
    }
}

/// The launch specification of the worker.
pub fn launch_spec() -> (launch: LaunchSpec)
    ensures
        launch.is_worker_launch(),
{
    let mut args: Vec<String> = Vec::new();
    args.push(String::from_str(PORT_FLAG));
    args.push(String::from_str(PORT_VALUE));
    LaunchSpec { program: String::from_str(WORKER_PROGRAM), args }
}

/// What an attempt to launch the worker came to. The application makes the
/// attempt and reports it in this form.
#[derive(Clone, Debug, PartialEq, Eq)]
pub enum SpawnOutcome {
    /// The process runs; `pid` is its process identifier.
    Spawned { pid: u32 },
    /// The executable could not be located; carries the system's description.
    NotLocated(String),
    /// The executable was located but could not be started; carries the
    /// system's description.
    NotStarted(String),
}

/// Mathematical model of a [`SpawnOutcome`].
pub ghost enum OutcomeView {
    Spawned { pid: u32 },
    NotLocated(Seq<char>),
    NotStarted(Seq<char>),
}

impl View for SpawnOutcome {
    type V = OutcomeView;

    open spec fn view(&self) -> OutcomeView {
        match self {
            SpawnOutcome::Spawned { pid } => OutcomeView::Spawned { pid: *pid },
            SpawnOutcome::NotLocated(detail) => OutcomeView::NotLocated(detail@),
            SpawnOutcome::NotStarted(detail) => OutcomeView::NotStarted(detail@),
        }
    }
}

} // verus!
