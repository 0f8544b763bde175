//! The change listener: it owns the decisions and leaves the work to its
//! caller.

use crate::model::{initial, lemma_next_wf, next, outstanding, settle, Phase, State};
use crate::names::names_of;
use crate::pending::PendingSet;
use crate::protocol::{Action, Event, Failure};
use crate::registry::Registry;
use crate::settings::{LISTEN_STATEMENT, OUTPUT_DIR, TICK_MILLIS, TIME_ZONE_STATEMENT};
use vstd::prelude::*;
use vstd::string::*;

verus! {

/// A change listener.
///
/// The listener connects, sets the session's time zone and subscribes. It
/// then exports every resource that the registry enumerates, in order, and
/// from then on waits for notifications, tick after tick: the names notified
/// within one tick are gathered, each once, and exported when the tick ends,
/// one after the other, before the next tick begins. A name without a
/// resource is reported and passed over. A failed export, like any other
/// failed action, stops the listener for good.
///
/// The caller drives the listener: it carries out the outstanding action,
/// hands the event that answers it to [`Listener::step`], and gets the next
/// action back.
pub struct Listener {
    url: String,
    registry: Registry,
    phase: Phase,
    bootstrapped: bool,
    batch: Vec<String>,
    cursor: usize,
    pending: PendingSet,
}

impl View for Listener {
    type V = State;

    closed spec fn view(&self) -> State {
        State {
            url: self.url@,
            registry: self.registry@,
            phase: self.phase,
            bootstrapped: self.bootstrapped,
            batch: names_of(self.batch@),
            cursor: self.cursor as nat,
            pending: self.pending@,
        }
    }
}

impl Listener {
    /// The listener is in a state that a listener can reach.
    pub open spec fn wf(&self) -> bool {
        self@.wf()
    }

    /// A listener for the store at `url` that exports the resources of
    /// `registry`. Its first action, opening the connection, is outstanding.
    pub fn new(url: String, registry: Registry) -> (listener: Listener)
        ensures
            listener.wf(),
            listener@ == initial(url@, registry@),
    {
        let batch = registry.all_names().clone();
        assert(names_of(batch@) =~= registry@.names);
        Listener {
            url,
            registry,
            phase: Phase::Connecting,
            bootstrapped: false,
            batch,
            cursor: 0,
            pending: PendingSet::new(),
        }
    }

    /// The action that is outstanding: what the caller is to do next.
    pub fn action(&self) -> (action: Action)
        requires
            self.wf(),
        ensures
            action@ == outstanding(self@),
    {
        match self.phase {
            Phase::Connecting => Action::Connect { url: self.url.clone() },
            Phase::Configuring => Action::Execute {
                statement: String::from_str(TIME_ZONE_STATEMENT),
            },
            Phase::Subscribing => Action::Execute { statement: String::from_str(LISTEN_STATEMENT) },
            Phase::Fetching => {
                let name = self.batch[self.cursor].clone();
                match self.registry.lookup(&name) {
                    Some(resource) => Action::Fetch {
                        name,
                        resource,
                        output_dir: String::from_str(OUTPUT_DIR),
                    },
                    None => {
                        // An entry is exported only where its name has a resource.
                        assert(false);
                        Action::ReportUnknown { name }
                    },
                }
            },
            Phase::Reporting { rows: Some(rows) } => Action::ReportWrote {
                name: self.batch[self.cursor].clone(),
                rows,
            },
            Phase::Reporting { rows: None } => Action::ReportUnknown {
                name: self.batch[self.cursor].clone(),
            },
            Phase::Polling => Action::Poll { millis: TICK_MILLIS },
            Phase::Halted { failure } => Action::Halt { failure },
        }
    }

    /// Takes in the event that answers the outstanding action, moves on,
    /// and returns the action that is outstanding now.
    pub fn step(&mut self, event: Event) -> (action: Action)
        requires
            old(self).wf(),
        ensures
            final(self).wf(),
            final(self)@ == next(old(self)@, event@),
            action@ == outstanding(final(self)@),
    {
        proof {
            lemma_next_wf(self@, event@);
        }
        match self.phase {
            Phase::Connecting => match event {
                Event::Done => {
                    self.phase = Phase::Configuring;
                },
                Event::Failed => {
                    self.phase = Phase::Halted { failure: Failure::Setup };
                },
                _ => {
                    self.phase = Phase::Halted { failure: Failure::Protocol };
                },
            },
            Phase::Configuring => match event {
                Event::Done => {
                    self.phase = Phase::Subscribing;
                },
                Event::Failed => {
                    self.phase = Phase::Halted { failure: Failure::Setup };
                },
                _ => {
                    self.phase = Phase::Halted { failure: Failure::Protocol };
                },
            },
            Phase::Subscribing => match event {
                Event::Done => {
                    self.settle();
                },
                Event::Failed => {
                    self.phase = Phase::Halted { failure: Failure::Setup };
                },
                _ => {
                    self.phase = Phase::Halted { failure: Failure::Protocol };
                },
            },
            Phase::Fetching => match event {
                Event::Fetched { rows } => {
                    self.phase = Phase::Reporting { rows: Some(rows) };
                },
                Event::Failed => {
                    self.phase = Phase::Halted { failure: Failure::Fetch };
                },
                _ => {
                    self.phase = Phase::Halted { failure: Failure::Protocol };
                },
            },
            Phase::Reporting { .. } => match event {
                Event::Done => {
                    assert(self.cursor < self.batch.len()) by {
                        assert(self@.batch.len() == self.batch.len());
                    }
                    self.cursor = self.cursor + 1;
                    self.settle();
                },
                _ => {
                    self.phase = Phase::Halted { failure: Failure::Protocol };
                },
            },
            Phase::Polling => match event {
                Event::Notified { payload } => {
                    self.pending.insert(payload);
                },
                Event::Quiet => {
                    self.batch = self.pending.drain();
                    self.cursor = 0;
                    self.settle();
                },
                Event::Failed => {
                    self.phase = Phase::Halted { failure: Failure::Fetch };
                },
                _ => {
                    self.phase = Phase::Halted { failure: Failure::Protocol };
                },
            },
            Phase::Halted { .. } => {},
        }
        self.action()
    }

    /// Where the listener stands.
    pub fn phase(&self) -> (phase: Phase)
        ensures
            phase == self@.phase,
    {
        self.phase
    }

    /// Why the listener stopped, or `None` while it runs.
    pub fn failure(&self) -> (failure: Option<Failure>)
        ensures
            failure == (match self@.phase {
                Phase::Halted { failure } => Some(failure),
                _ => None,
            }),
    {
        match self.phase {
            Phase::Halted { failure } => Some(failure),
            _ => None,
        }
    }

    /// Whether every name of the registry's enumeration has been served.
    pub fn is_bootstrapped(&self) -> (done: bool)
        ensures
            done == self@.bootstrapped,
    {
        self.bootstrapped
    }

    /// The registry that the listener was built with.
    pub fn registry(&self) -> (registry: &Registry)
        ensures
            registry@ == self@.registry,
    {
        &self.registry
    }

    /// Sets the phase for the entry at the cursor.
    fn settle(&mut self)
        requires
            old(self).cursor <= old(self).batch.len(),
        ensures
            final(self)@ == settle(old(self)@),
    {
        if self.cursor < self.batch.len() {
            match self.registry.lookup(&self.batch[self.cursor]) {
                Some(_) => {
                    self.phase = Phase::Fetching;
                },
                None => {
                    self.phase = Phase::Reporting { rows: None };
                },
            }
        } else {
            self.phase = Phase::Polling;
            self.bootstrapped = true;
        }
    }
}

} // verus!
