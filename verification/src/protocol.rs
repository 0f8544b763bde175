//! What passes between the listener and the caller that drives it: the
//! actions that the listener asks for and the events that answer them.

use crate::names::Name;
use vstd::prelude::*;

verus! {

/// Why a listener stopped. Every failure is final: the listener never
/// retries and never reconnects.
#[derive(Clone, Copy, Debug, PartialEq, Eq)]
pub enum Failure {
    /// The store could not be reached, the session could not be
    /// configured, or the subscription was refused.
    Setup,
    /// A resource could not be exported, or the wait for notifications
    /// broke; the two cannot be told apart.
    Fetch,
    /// The caller handed in an event that does not answer the action that
    /// was outstanding.
    Protocol,
}

/// What happened to the action that was outstanding.
#[derive(Debug, PartialEq, Eq)]
pub enum Event {
    /// The action was carried out. Answers `Connect`, `Execute`,
    /// `ReportWrote` and `ReportUnknown`.
    Done,
    /// The resource was exported and wrote `rows` items. Answers `Fetch`.
    Fetched { rows: u32 },
    /// A notification arrived before the tick ran out; its payload is the
    /// name of the resource that changed. Answers `Poll`.
    Notified { payload: String },
    /// The tick ran out with no further notification. Answers `Poll`.
    Quiet,
    /// The action failed. Answers `Connect`, `Execute`, `Fetch` and `Poll`.
    Failed,
}

/// An event as contracts see it.
pub enum EventView {
    Done,
    Fetched { rows: u32 },
    Notified { payload: Name },
    Quiet,
    Failed,
}

impl View for Event {
    type V = EventView;

    open spec fn view(&self) -> EventView {
        match self {
            Event::Done => EventView::Done,
            Event::Fetched { rows } => EventView::Fetched { rows: *rows },
            Event::Notified { payload } => EventView::Notified { payload: payload@ },
            Event::Quiet => EventView::Quiet,
            Event::Failed => EventView::Failed,
        }
    }
}

/// What the listener asks its caller to do next. The caller carries the
/// action out and hands back the event that answers it.
#[derive(Debug, PartialEq, Eq)]
pub enum Action {
    /// Open the one connection to the store at `url`.
    Connect { url: String },
    /// Run `statement` on the connection.
    Execute { statement: String },
    /// Export the resource with handle `resource`, registered under `name`,
    /// into files beneath `output_dir`, and time the export.
    Fetch { name: String, resource: usize, output_dir: String },
    /// Report that the export of `name` wrote `rows` items, and how long it
    /// took.
    ReportWrote { name: String, rows: u32 },
    /// Report that `name` has no resource behind it.
    ReportUnknown { name: String },
    /// Wait for a notification, for `millis` milliseconds at most.
    Poll { millis: u64 },
    /// Stop: the listener has failed for good.
    Halt { failure: Failure },
}

/// An action as contracts see it.
pub enum ActionView {
    Connect { url: Seq<char> },
    Execute { statement: Seq<char> },
    Fetch { name: Name, resource: int, output_dir: Seq<char> },
    ReportWrote { name: Name, rows: u32 },
    ReportUnknown { name: Name },
    Poll { millis: u64 },
    Halt { failure: Failure },
}

impl View for Action {
    type V = ActionView;

    open spec fn view(&self) -> ActionView {
        match self {
            Action::Connect { url } => ActionView::Connect { url: url@ },
            Action::Execute { statement } => ActionView::Execute { statement: statement@ },
            Action::Fetch { name, resource, output_dir } => ActionView::Fetch {
                name: name@,
                resource: *resource as int,
                output_dir: output_dir@,
            },
            Action::ReportWrote { name, rows } => ActionView::ReportWrote {
                name: name@,
                rows: *rows,
            },
            Action::ReportUnknown { name } => ActionView::ReportUnknown { name: name@ },
            Action::Poll { millis } => ActionView::Poll { millis: *millis },
            Action::Halt { failure } => ActionView::Halt { failure: *failure },
        }
    }
}

} // verus!
