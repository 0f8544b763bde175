//! The listener as a state machine over plain values: what state it is in,
//! which action is outstanding in each state, and where each event leads.

use crate::names::{lemma_record_distinct, record, Name};
use crate::protocol::{ActionView, EventView, Failure};
use crate::registry::{resource_of, RegistryView};
use crate::settings::{LISTEN_STATEMENT, OUTPUT_DIR, TICK_MILLIS, TIME_ZONE_STATEMENT};
use vstd::prelude::*;

verus! {

/// Where the listener stands. In every phase but the last exactly one
/// action is outstanding.
#[derive(Clone, Copy, Debug, PartialEq, Eq)]
pub enum Phase {
    /// The connection is being opened.
    Connecting,
    /// The session's time zone is being set.
    Configuring,
    /// The subscription is being made.
    Subscribing,
    /// The current entry of the batch is being exported.
    Fetching,
    /// The outcome of the current entry is being reported: the items it
    /// wrote, or, with `None`, that the name is unknown.
    Reporting { rows: Option<u32> },
    /// The listener waits for notifications.
    Polling,
    /// The listener has failed for good.
    Halted { failure: Failure },
}

/// The state of a listener.
pub struct State {
    /// The address of the store.
    pub url: Seq<char>,
    /// The registry that the listener was built with.
    pub registry: RegistryView,
    pub phase: Phase,
    /// Whether every name of the registry's enumeration has been served.
    pub bootstrapped: bool,
    /// The names being served one after the other: the registry's
    /// enumeration at startup, later the names that one tick gathered.
    pub batch: Seq<Name>,
    /// How many entries of the batch have been served.
    pub cursor: nat,
    /// The names notified in the current tick, each once.
    pub pending: Seq<Name>,
}

/// The state of a new listener for the store at `url`.
pub open spec fn initial(url: Seq<char>, registry: RegistryView) -> State {
    State {
        url,
        registry,
        phase: Phase::Connecting,
        bootstrapped: false,
        batch: registry.names,
        cursor: 0,
        pending: Seq::empty(),
    }
}

/// The phase in which the entry at `cursor` starts: an export where the
/// name has a resource, a report where it has none, and the wait for
/// notifications where the batch is at its end.
pub open spec fn entry_phase(registered: Seq<Name>, batch: Seq<Name>, cursor: nat) -> Phase {
    if cursor < batch.len() {
        if resource_of(registered, batch[cursor as int]) is Some {
            Phase::Fetching
        } else {
            Phase::Reporting { rows: None }
        }
    } else {
        Phase::Polling
    }
}

/// `s` with its phase set for the entry at its cursor. A batch at its end
/// completes the bootstrap.
pub open spec fn settle(s: State) -> State {
    State {
        phase: entry_phase(s.registry.registered, s.batch, s.cursor),
        bootstrapped: s.bootstrapped || s.cursor >= s.batch.len(),
        ..s
    }
}

/// `s` stopped for good.
pub open spec fn halt(s: State, failure: Failure) -> State {
    State { phase: Phase::Halted { failure }, ..s }
}

/// The state that follows `s` when `event` answers the outstanding action.
///
/// The three setup steps follow one another and lead into the bootstrap
/// batch. An export is followed by its report, a report by the next entry.
/// While the listener waits, a notification adds its name to the pending
/// names, and the end of the tick turns the pending names into the next
/// batch. A failed action stops the listener; so does an event that does
/// not answer the outstanding action. A stopped listener stays as it is.
pub open spec fn next(s: State, event: EventView) -> State {
    match s.phase {
        Phase::Connecting => match event {
            EventView::Done => State { phase: Phase::Configuring, ..s },
            EventView::Failed => halt(s, Failure::Setup),
            _ => halt(s, Failure::Protocol),
        },
        Phase::Configuring => match event {
            EventView::Done => State { phase: Phase::Subscribing, ..s },
            EventView::Failed => halt(s, Failure::Setup),
            _ => halt(s, Failure::Protocol),
        },
        Phase::Subscribing => match event {
            EventView::Done => settle(State { batch: s.registry.names, cursor: 0, ..s }),
            EventView::Failed => halt(s, Failure::Setup),
            _ => halt(s, Failure::Protocol),
        },
        Phase::Fetching => match event {
            EventView::Fetched { rows } => State { phase: Phase::Reporting { rows: Some(rows) }, ..s },
            EventView::Failed => halt(s, Failure::Fetch),
            _ => halt(s, Failure::Protocol),
        },
        Phase::Reporting { .. } => match event {
            EventView::Done => settle(State { cursor: s.cursor + 1, ..s }),
            _ => halt(s, Failure::Protocol),
        },
        Phase::Polling => match event {
            EventView::Notified { payload } => State { pending: record(s.pending, payload), ..s },
            EventView::Quiet => settle(
                State { batch: s.pending, cursor: 0, pending: Seq::empty(), ..s },
            ),
            EventView::Failed => halt(s, Failure::Fetch),
            _ => halt(s, Failure::Protocol),
        },
        Phase::Halted { .. } => s,
    }
}

/// The action that is outstanding in `s`.
pub open spec fn outstanding(s: State) -> ActionView {
    match s.phase {
        Phase::Connecting => ActionView::Connect { url: s.url },
        Phase::Configuring => ActionView::Execute { statement: TIME_ZONE_STATEMENT@ },
        Phase::Subscribing => ActionView::Execute { statement: LISTEN_STATEMENT@ },
        Phase::Fetching => ActionView::Fetch {
            name: s.batch[s.cursor as int],
            resource: resource_of(s.registry.registered, s.batch[s.cursor as int]).unwrap(),
            output_dir: OUTPUT_DIR@,
        },
        Phase::Reporting { rows: Some(rows) } => ActionView::ReportWrote {
            name: s.batch[s.cursor as int],
            rows,
        },
        Phase::Reporting { rows: None } => ActionView::ReportUnknown {
            name: s.batch[s.cursor as int],
        },
        Phase::Polling => ActionView::Poll { millis: TICK_MILLIS },
        Phase::Halted { failure } => ActionView::Halt { failure },
    }
}

impl State {
    /// What holds of every state that a listener can reach.
    ///
    /// No pending name is held twice, and names are pending only while the
    /// listener waits. Until the bootstrap is complete the batch is the
    /// registry's enumeration. While an entry is exported or reported the
    /// cursor stands at it, and the entry is exported exactly if its name
    /// has a resource. The listener waits only after the bootstrap, with the
    /// batch served to its end.
    pub open spec fn wf(self) -> bool {
        &&& self.cursor <= self.batch.len()
        &&& self.pending.no_duplicates()
        &&& (!self.bootstrapped ==> self.batch == self.registry.names)
        &&& match self.phase {
            Phase::Connecting | Phase::Configuring | Phase::Subscribing => {
                &&& !self.bootstrapped
                &&& self.cursor == 0
                &&& self.pending.len() == 0
            },
            Phase::Fetching => {
                &&& self.cursor < self.batch.len()
                &&& resource_of(self.registry.registered, self.batch[self.cursor as int]) is Some
                &&& self.pending.len() == 0
            },
            Phase::Reporting { rows } => {
                &&& self.cursor < self.batch.len()
                &&& (rows is Some <==> resource_of(
                    self.registry.registered,
                    self.batch[self.cursor as int],
                ) is Some)
                &&& self.pending.len() == 0
            },
            Phase::Polling => {
                &&& self.bootstrapped
                &&& self.cursor == self.batch.len()
            },
            Phase::Halted { .. } => true,
        }
    }

    /// Whether the listener has stopped for good.
    pub open spec fn halted(self) -> bool {
        self.phase is Halted
    }
}

/// Every event leads from a state that a listener can reach to another
/// such state.
pub proof fn lemma_next_wf(s: State, event: EventView)
    requires
        s.wf(),
    ensures
        next(s, event).wf(),
{
    if let EventView::Notified { payload } = event {
        lemma_record_distinct(s.pending, payload);
    }
}

} // verus!
