//! The application's state and its command surface: the supervisor and the
//! control surface side by side, with the commands that the user interface
//! and the tray invoke.

use crate::control::{
    action_for_event, effect_of, tray_action, window_after, ControlEffect, ControlSurface,
    TrayEvent, WindowState,
};
use crate::launch::{OutcomeView, SpawnOutcome};
use crate::relay::EventRelay;
use crate::supervisor::{failure_reason, Restarted, Supervisor, RESTARTED_MESSAGE};
use vstd::prelude::*;

verus! {

/// State of the application shell.
#[derive(Debug)]
pub struct Shell {
    supervisor: Supervisor,
    surface: ControlSurface,
}

impl Shell {
    /// The supervisor of the backend worker.
    pub closed spec fn supervisor(&self) -> Supervisor {
        self.supervisor
    }

    /// The control surface.
    pub closed spec fn surface(&self) -> ControlSurface {
        self.surface
    }

    /// The shell at application start-up: no worker was started and the main
    /// window is visible.
    pub fn new() -> (shell: Self)
        ensures
            shell.supervisor().worker() is None,
            shell.surface().window() == WindowState::Visible,
    {
        Shell { supervisor: Supervisor::new(), surface: ControlSurface::new() }
    }

    /// Visibility of the main window.
    pub fn window_state(&self) -> (window: WindowState)
        ensures
            window == self.surface().window(),
    {
        self.surface.window_state()
    }

    /// Completes a start of the backend, given what the launch attempt came
    /// to. On success the backend counts as running and the relay of the new
    /// worker is handed back. On failure the reason is returned as text and
    /// nothing changes.
    pub fn start_backend(&mut self, outcome: SpawnOutcome) -> (result: Result<EventRelay, String>)
        ensures
            final(self).surface() == old(self).surface(),
            final(self).supervisor().worker() == old(self).supervisor().after_start(outcome@),
            match result {
                Ok(relay) => {
                    &&& outcome@ matches OutcomeView::Spawned { pid }
                    &&& relay.worker() == pid
                    &&& !relay.finished()
                },
                Err(reason) => failure_reason(outcome@) == Some(reason@),
            },
            result is Ok ==> final(self).supervisor().running(),
            result is Err ==> *final(self) == *old(self),
    {
        match self.supervisor.start(outcome) {
            Ok(relay) => Ok(relay),
            Err(error) => Err(error.into_reason()),
        }
    }

    /// Command of the user interface: whether the backend counts as running.
    pub fn get_backend_status(&self) -> (running: bool)
        ensures
            running == self.supervisor().running(),
    {
        self.supervisor.status()
    }

    /// Command of the user interface: completes a restart of the backend,
    /// given what the launch attempt came to. Answers with a confirmation and
    /// the relay of the new worker, or with the reason of the failure as text.
    pub fn restart_backend(&mut self, outcome: SpawnOutcome) -> (result: Result<Restarted, String>)
        ensures
            final(self).surface() == old(self).surface(),
            final(self).supervisor().worker() == old(self).supervisor().after_start(outcome@),
            match result {
                Ok(restarted) => {
                    &&& outcome@ matches OutcomeView::Spawned { pid }
                    &&& restarted.relay.worker() == pid
                    &&& !restarted.relay.finished()
                    &&& restarted.message@ == RESTARTED_MESSAGE@
                },
                Err(reason) => failure_reason(outcome@) == Some(reason@),
            },
            result is Ok ==> final(self).supervisor().running(),
            result is Err ==> *final(self) == *old(self),
    {
        match self.supervisor.restart(outcome) {
            Ok(restarted) => Ok(restarted),
            Err(error) => Err(error.into_reason()),
        }
    }

    /// Takes a gesture on the tray and answers with what the application
    /// carries out. `window_present` says whether the main window exists.
    ///
    /// No gesture touches the supervisor: hiding the window, or quitting,
    /// leaves the backend's status as it is.
    pub fn on_tray_event(&mut self, event: &TrayEvent, window_present: bool) -> (effect:
        ControlEffect)
        ensures
            final(self).supervisor() == old(self).supervisor(),
            match action_for_event(event@) {
                Some(action) => {
                    &&& effect == effect_of(action, window_present)
                    &&& final(self).surface().window() == window_after(
                        old(self).surface().window(),
                        action,
                        window_present,
                    )
                },
                None => {
                    &&& effect == ControlEffect::Nothing
                    &&& final(self).surface() == old(self).surface()
                },
            },
    {
        match tray_action(event) {
            Some(action) => self.surface.apply(action, window_present),
            None => ControlEffect::Nothing,
        }
    }
}

} // verus!
