//! The relay between a worker's output channel and the user interface.
//!
//! A relay serves one worker instance. The application awaits the worker's
//! channel, hands each item to the relay in the order it arrived and carries
//! out the action that the relay answers with: a log record, and for failures
//! and exits a notification to the interface as well.

use crate::event::{EventView, ExitPayload, OutputEvent};
use vstd::prelude::*;

verus! {

/// Name of the interface event that carries a worker failure.
pub const BACKEND_ERROR: &'static str = "backend-error";

/// Name of the interface event that announces the worker's exit.
pub const BACKEND_STOPPED: &'static str = "backend-stopped";

/// Opens a log line of informational level.
pub const INFO_TAG: &'static str = "[Backend] ";

/// Opens a log line of error level.
pub const ERROR_TAG: &'static str = "[Backend Error] ";

/// Opens a log line of fatal level.
pub const FATAL_TAG: &'static str = "[Backend Fatal] ";

/// Stands in a log line between the tag and the description of an exit.
pub const EXITED_NOTE: &'static str = "进程退出: ";

/// Severity of a log record.
#[derive(Clone, Copy, Debug, PartialEq, Eq)]
pub enum LogLevel {
    Info,
    Error,
    Fatal,
}

/// The tag that opens a log line of `level`.
pub open spec fn tag_of(level: LogLevel) -> Seq<char> {
    match level {
        LogLevel::Info => INFO_TAG@,
        LogLevel::Error => ERROR_TAG@,
        LogLevel::Fatal => FATAL_TAG@,
    }
}

impl LogLevel {
    /// The tag that opens a log line of this level.
    pub fn tag(&self) -> (tag: &'static str)
        ensures
            tag@ == tag_of(*self),
    {
        match self {
            LogLevel::Info => INFO_TAG,
            LogLevel::Error => ERROR_TAG,
            LogLevel::Fatal => FATAL_TAG,
        }
    }

    /// Whether a record of this level goes to the error stream rather than to
    /// standard output: all but informational records do.
    pub fn to_error_stream(&self) -> (error: bool)
        ensures
            error == (*self != LogLevel::Info),
    {
        match self {
            LogLevel::Info => false,
            LogLevel::Error => true,
            LogLevel::Fatal => true,
        }
    }
}

/// What a log record says.
#[derive(Clone, Debug, PartialEq, Eq)]
pub enum LogMessage {
    /// Text that the worker produced.
    Line(String),
    /// The worker process exited.
    Exited(ExitPayload),
}

/// A record for the application's log.
#[derive(Clone, Debug, PartialEq, Eq)]
pub struct LogRecord {
    pub level: LogLevel,
    pub message: LogMessage,
}

/// A best-effort notification to the user interface. It is lost without
/// error when nothing listens.
#[derive(Clone, Debug, PartialEq, Eq)]
pub enum Notification {
    /// The worker failed; carries the description of the failure.
    BackendError(String),
    /// The worker exited; carries how it ended.
    BackendStopped(ExitPayload),
}

/// What the application does for one relayed event.
#[derive(Clone, Debug, PartialEq, Eq)]
pub struct RelayAction {
    /// The record to write to the log.
    pub log: LogRecord,
    /// The notification to emit to the interface, if the event calls for one.
    pub notification: Option<Notification>,
}

/// Mathematical model of a [`LogMessage`].
pub ghost enum MessageView {
    Line(Seq<char>),
    Exited(ExitPayload),
}

/// Mathematical model of a [`LogRecord`].
pub ghost struct LogView {
    pub level: LogLevel,
    pub message: MessageView,
}

/// Mathematical model of a [`Notification`].
pub ghost enum NotificationView {
    BackendError(Seq<char>),
    BackendStopped(ExitPayload),
}

/// Mathematical model of a [`RelayAction`].
pub ghost struct ActionView {
    pub log: LogView,
    pub notification: Option<NotificationView>,
}

impl View for LogMessage {
    type V = MessageView;

    open spec fn view(&self) -> MessageView {
        match self {
            LogMessage::Line(text) => MessageView::Line(text@),
            LogMessage::Exited(payload) => MessageView::Exited(*payload),
        }
    }
}

impl View for LogRecord {
    type V = LogView;

    open spec fn view(&self) -> LogView {
        LogView { level: self.level, message: self.message@ }
    }
}

impl View for Notification {
    type V = NotificationView;

    open spec fn view(&self) -> NotificationView {
        match self {
            Notification::BackendError(reason) => NotificationView::BackendError(reason@),
            Notification::BackendStopped(payload) => NotificationView::BackendStopped(*payload),
        }
    }
}

impl View for RelayAction {
    type V = ActionView;

    open spec fn view(&self) -> ActionView {
        ActionView {
            log: self.log@,
            notification: match self.notification {
                Some(n) => Some(n@),
                None => None,
            },
        }
    }
}

/// The event name under which a notification is emitted.
pub open spec fn channel_of(notification: NotificationView) -> Seq<char> {
    match notification {
        NotificationView::BackendError(_) => BACKEND_ERROR@,
        NotificationView::BackendStopped(_) => BACKEND_STOPPED@,
    }
}

/// The action that an event calls for.
///
/// Output lines are logged and nothing else. A failure is logged as fatal and
/// reported on `backend-error` with its description. An exit is logged and
/// reported on `backend-stopped`.
pub open spec fn action_of(event: EventView) -> ActionView {
    match event {
        EventView::StandardOutputLine(line) => ActionView {
            log: LogView { level: LogLevel::Info, message: MessageView::Line(line) },
            notification: None,
        },
        EventView::ErrorOutputLine(line) => ActionView {
            log: LogView { level: LogLevel::Error, message: MessageView::Line(line) },
            notification: None,
        },
        EventView::LaunchFailure(reason) => ActionView {
            log: LogView { level: LogLevel::Fatal, message: MessageView::Line(reason) },
            notification: Some(NotificationView::BackendError(reason)),
        },
        EventView::Terminated(payload) => ActionView {
            log: LogView { level: LogLevel::Info, message: MessageView::Exited(payload) },
            notification: Some(NotificationView::BackendStopped(payload)),
        },
    }
}

impl Notification {
    /// The event name under which the interface receives this notification.
    pub fn channel(&self) -> (name: &'static str)
        ensures
            name@ == channel_of(self@),
    {
        match self {
            Notification::BackendError(_) => BACKEND_ERROR,
            Notification::BackendStopped(_) => BACKEND_STOPPED,
        }
    }
}

/// Computes the action for one event.
pub fn dispatch(event: OutputEvent) -> (action: RelayAction)
    ensures
        action@ == action_of(event@),
{
    match event {
        OutputEvent::StandardOutputLine(line) => RelayAction {
            log: LogRecord { level: LogLevel::Info, message: LogMessage::Line(line) },
            notification: None,
        },
        OutputEvent::ErrorOutputLine(line) => RelayAction {
            log: LogRecord { level: LogLevel::Error, message: LogMessage::Line(line) },
            notification: None,
        },
        OutputEvent::LaunchFailure(reason) => {
            let description = reason.clone();
            RelayAction {
                log: LogRecord { level: LogLevel::Fatal, message: LogMessage::Line(reason) },
                notification: Some(Notification::BackendError(description)),
            }
        },
        OutputEvent::Terminated(payload) => RelayAction {
            log: LogRecord { level: LogLevel::Info, message: LogMessage::Exited(payload) },
            notification: Some(Notification::BackendStopped(payload)),
        },
    }
}

/// The relay task's state for one worker instance.
///
/// A relay comes into being with a successful start of the supervisor, and
/// only so. It stays live until the worker's channel closes and is finished
/// for good after that.
#[derive(Debug)]
pub struct EventRelay {
    worker: u32,
    finished: bool,
}

/// The actions that `relay` answers with when it is handed `events` one after
/// the other.
pub open spec fn relay_trace(relay: EventRelay, events: Seq<EventView>) -> Seq<ActionView>
    decreases events.len(),
{
    if events.len() == 0 {
        Seq::empty()
    } else {
        let earlier = relay_trace(relay, events.drop_last());
        match relay.emits(events.last()) {
            Some(action) => earlier.push(action),
            None => earlier,
        }
    }
}

impl EventRelay {
    /// Process identifier of the worker instance that this relay serves.
    pub closed spec fn worker(&self) -> u32 {
        self.worker
    }

    /// Whether the worker's channel has closed.
    pub closed spec fn finished(&self) -> bool {
        self.finished
    }

    /// What the relay answers when it is handed `event`: the event's action
    /// while the relay is live, nothing once it is finished.
    pub open spec fn emits(&self, event: EventView) -> Option<ActionView> {
        if self.finished() {
            None
        } else {
            Some(action_of(event))
        }
    }

    /// A live relay for the worker instance with process identifier `worker`.
    pub(crate) fn attach(worker: u32) -> (relay: Self)
        ensures
            relay.worker() == worker,
            !relay.finished(),
    {
        EventRelay { worker, finished: false }
    }

    /// Process identifier of the worker instance that this relay serves.
    pub fn worker_id(&self) -> (id: u32)
        ensures
            id == self.worker(),
    {
        self.worker
    }

    /// Whether the worker's channel has closed, so that the relay task ends.
    pub fn is_finished(&self) -> (done: bool)
        ensures
            done == self.finished(),
    {
        self.finished
    }

    /// Takes the next event of the worker's channel and answers with what to
    /// do for it. Relaying changes no state. A finished relay answers `None`.
    pub fn on_event(&self, event: OutputEvent) -> (action: Option<RelayAction>)
        ensures
            match action {
                Some(a) => self.emits(event@) == Some(a@),
                None => self.emits(event@) is None,
            },
    {
        if self.finished {
            None
        } else {
            Some(dispatch(event))
        }
    }

    /// Records that the worker's channel has closed: the worker has exited
    /// and no event remains. The relay is finished from here on.
    pub fn on_closed(&mut self)
        ensures
            final(self).finished(),
            final(self).worker() == old(self).worker(),
    {
        self.finished = true;
    }

    /// Relays a batch of events that arrived in this order, and answers with
    /// one action for each, in the same order.
    pub fn relay_all(&self, events: Vec<OutputEvent>) -> (actions: Vec<RelayAction>)
        ensures
            actions@.map_values(|a: RelayAction| a@) == relay_trace(
                *self,
                events@.map_values(|e: OutputEvent| e@),
            ),
    {
        let ghost all = events@.map_values(|e: OutputEvent| e@);
        let mut actions: Vec<RelayAction> = Vec::new();
        for event in it: events
            invariant
                it.seq().map_values(|e: OutputEvent| e@) == all,
                actions@.map_values(|a: RelayAction| a@) == relay_trace(
                    *self,
                    all.take(it.index() as int),
                ),
        {
            assert(all.take(it.index() + 1).drop_last() == all.take(it.index() as int));
            if let Some(action) = self.on_event(event) {
                actions.push(action);
            }
        }
        assert(all.take(all.len() as int) == all);
        actions
    }
}

/// Number of `backend-stopped` notifications among `actions`.
pub open spec fn stopped_count(actions: Seq<ActionView>) -> nat
    decreases actions.len(),
{
    if actions.len() == 0 {
        0
    } else {
        let earlier = stopped_count(actions.drop_last());
        match actions.last().notification {
            Some(NotificationView::BackendStopped(_)) => earlier + 1,
            _ => earlier,
        }
    }
}

/// Number of exits among `events`.
pub open spec fn terminated_count(events: Seq<EventView>) -> nat
    decreases events.len(),
{
    if events.len() == 0 {
        0
    } else {
        let earlier = terminated_count(events.drop_last());
        match events.last() {
            EventView::Terminated(_) => earlier + 1,
            _ => earlier,
        }
    }
}

/// A live relay answers every event it is handed with that event's action and
/// in the order of arrival: nothing is dropped, repeated or reordered.
pub proof fn lemma_live_relay_is_fifo(relay: EventRelay, events: Seq<EventView>)
    requires
        !relay.finished(),
    ensures
        relay_trace(relay, events).len() == events.len(),
        forall|i: int|
            0 <= i < events.len() ==> #[trigger] relay_trace(relay, events)[i] == action_of(
                events[i],
            ),
    decreases events.len(),
{
    if events.len() > 0 {
        lemma_live_relay_is_fifo(relay, events.drop_last());
    }
}

/// A finished relay answers nothing, whatever it is handed.
pub proof fn lemma_finished_relay_is_silent(relay: EventRelay, events: Seq<EventView>)
    requires
        relay.finished(),
    ensures
        relay_trace(relay, events).len() == 0,
    decreases events.len(),
{
    if events.len() > 0 {
        lemma_finished_relay_is_silent(relay, events.drop_last());
    }
}

/// Relaying one batch and then another gives what relaying both at once
/// gives: the order of arrival carries over from batch to batch.
pub proof fn lemma_relay_trace_concat(
    relay: EventRelay,
    first: Seq<EventView>,
    second: Seq<EventView>,
)
    ensures
        relay_trace(relay, first + second) == relay_trace(relay, first) + relay_trace(
            relay,
            second,
        ),
    decreases second.len(),
{
    if second.len() > 0 {
        lemma_relay_trace_concat(relay, first, second.drop_last());
        assert((first + second).drop_last() == first + second.drop_last());
    }
}

/// A live relay emits `backend-stopped` once for each exit that it is handed,
/// and for nothing else.
pub proof fn lemma_one_stopped_per_exit(relay: EventRelay, events: Seq<EventView>)
    requires
        !relay.finished(),
    ensures
        stopped_count(relay_trace(relay, events)) == terminated_count(events),
    decreases events.len(),
{
    if events.len() > 0 {
        lemma_one_stopped_per_exit(relay, events.drop_last());
        let earlier = relay_trace(relay, events.drop_last());
        let action = action_of(events.last());
        assert(earlier.push(action).drop_last() == earlier);
    }
}

} // verus!
