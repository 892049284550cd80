//! Events that a worker process produces on its output channel.

use vstd::prelude::*;

verus! {

/// How a worker process ended.
#[derive(Clone, Copy, Debug, PartialEq, Eq)]
pub struct ExitPayload {
    /// Exit code of the process, absent when a signal ended it.
    pub code: Option<i32>,
    /// Signal that ended the process, if one did.
    pub signal: Option<i32>,
}

/// One item of a worker's output channel.
#[derive(Clone, Debug, PartialEq, Eq)]
pub enum OutputEvent {
    /// A line the worker wrote to its standard output.
    StandardOutputLine(String),
    /// A line the worker wrote to its error output.
    ErrorOutputLine(String),
    /// The worker could not be run, or failed while running.
    LaunchFailure(String),
    /// The worker process exited.
    Terminated(ExitPayload),
}

/// Mathematical model of an [`OutputEvent`]: text is a sequence of characters.
pub ghost enum EventView {
    StandardOutputLine(Seq<char>),
    ErrorOutputLine(Seq<char>),
    LaunchFailure(Seq<char>),
    Terminated(ExitPayload),
}

impl View for OutputEvent {
    type V = EventView;

    open spec fn view(&self) -> EventView {
        match self {
            OutputEvent::StandardOutputLine(line) => EventView::StandardOutputLine(line@),
            OutputEvent::ErrorOutputLine(line) => EventView::ErrorOutputLine(line@),
            OutputEvent::LaunchFailure(reason) => EventView::LaunchFailure(reason@),
            OutputEvent::Terminated(payload) => EventView::Terminated(*payload),
        }
    }
}

} // verus!
