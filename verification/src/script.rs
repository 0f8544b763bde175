//! Runs of the listener: the states that a sequence of events leads
//! through, the actions that those events answer, and the exchanges by
//! which a batch of names is served.

use crate::model::{lemma_next_wf, next, outstanding, State};
use crate::names::Name;
use crate::protocol::{ActionView, EventView, Failure};
use crate::registry::resource_of;
use crate::settings::{LISTEN_STATEMENT, OUTPUT_DIR, TICK_MILLIS, TIME_ZONE_STATEMENT};
use vstd::prelude::*;

verus! {

/// The state reached from `s` when `events` answer the outstanding actions
/// one after the other.
pub open spec fn run(s: State, events: Seq<EventView>) -> State
    decreases events.len(),
{
    if events.len() == 0 {
        s
    } else {
        next(run(s, events.drop_last()), events.last())
    }
}

/// The actions that `events` answer, starting from `s`: the first is the
/// action outstanding in `s`, and each later one is the action outstanding
/// after the events before it. The action that is outstanding after the
/// last event is not among them.
pub open spec fn performed(s: State, events: Seq<EventView>) -> Seq<ActionView>
    decreases events.len(),
{
    if events.len() == 0 {
        Seq::empty()
    } else {
        performed(s, events.drop_last()).push(outstanding(run(s, events.drop_last())))
    }
}

/// The events that answer the three setup steps when each succeeds.
pub open spec fn setup_events() -> Seq<EventView> {
    seq![EventView::Done, EventView::Done, EventView::Done]
}

/// The three setup steps: connect to `url`, set the time zone, subscribe.
pub open spec fn setup_actions(url: Seq<char>) -> Seq<ActionView> {
    seq![
        ActionView::Connect { url },
        ActionView::Execute { statement: TIME_ZONE_STATEMENT@ },
        ActionView::Execute { statement: LISTEN_STATEMENT@ },
    ]
}

/// The events that answer the serving of `name` when nothing fails: an
/// export that wrote `rows` items and its report, or, for a name without a
/// resource, the report alone.
pub open spec fn entry_events(registered: Seq<Name>, name: Name, rows: u32) -> Seq<EventView> {
    if resource_of(registered, name) is Some {
        seq![EventView::Fetched { rows }, EventView::Done]
    } else {
        seq![EventView::Done]
    }
}

/// The actions by which `name` is served: the export and the report of the
/// `rows` items it wrote, or, for a name without a resource, the report
/// that the name is unknown.
pub open spec fn entry_actions(registered: Seq<Name>, name: Name, rows: u32) -> Seq<ActionView> {
    match resource_of(registered, name) {
        Some(resource) => seq![
            ActionView::Fetch { name, resource, output_dir: OUTPUT_DIR@ },
            ActionView::ReportWrote { name, rows },
        ],
        None => seq![ActionView::ReportUnknown { name }],
    }
}

/// The events that answer the serving of `batch`, entry by entry, when
/// nothing fails and the export of entry `i` writes `rows[i]` items.
pub open spec fn service_events(registered: Seq<Name>, batch: Seq<Name>, rows: Seq<u32>) -> Seq<
    EventView,
>
    decreases batch.len(),
{
    if batch.len() == 0 {
        Seq::empty()
    } else {
        service_events(registered, batch.drop_last(), rows.drop_last()) + entry_events(
            registered,
            batch.last(),
            rows.last(),
        )
    }
}

/// The actions by which `batch` is served, entry by entry, when the export
/// of entry `i` writes `rows[i]` items.
pub open spec fn service_actions(registered: Seq<Name>, batch: Seq<Name>, rows: Seq<u32>) -> Seq<
    ActionView,
>
    decreases batch.len(),
{
    if batch.len() == 0 {
        Seq::empty()
    } else {
        service_actions(registered, batch.drop_last(), rows.drop_last()) + entry_actions(
            registered,
            batch.last(),
            rows.last(),
        )
    }
}

/// The entries of `batch` that have a resource, in the order of the batch:
/// the names that are exported when the batch is served.
pub open spec fn served(registered: Seq<Name>, batch: Seq<Name>) -> Seq<Name>
    decreases batch.len(),
{
    if batch.len() == 0 {
        Seq::empty()
    } else if resource_of(registered, batch.last()) is Some {
        served(registered, batch.drop_last()).push(batch.last())
    } else {
        served(registered, batch.drop_last())
    }
}

/// The names of the exports among `actions`, in order.
pub open spec fn fetches(actions: Seq<ActionView>) -> Seq<Name>
    decreases actions.len(),
{
    if actions.len() == 0 {
        Seq::empty()
    } else {
        match actions.last() {
            ActionView::Fetch { name, .. } => fetches(actions.drop_last()).push(name),
            _ => fetches(actions.drop_last()),
        }
    }
}

/// The events of one tick in which the notifications `heard` arrive.
pub open spec fn notifications(heard: Seq<Name>) -> Seq<EventView> {
    Seq::new(heard.len(), |i: int| EventView::Notified { payload: heard[i] })
}

/// `n` waits for notifications.
pub open spec fn polls(n: nat) -> Seq<ActionView> {
    Seq::new(n, |i: int| ActionView::Poll { millis: TICK_MILLIS })
}

/// `n` requests to stop.
pub open spec fn halts(n: nat, failure: Failure) -> Seq<ActionView> {
    Seq::new(n, |i: int| ActionView::Halt { failure })
}

/// One more event extends a run by one step.
pub proof fn lemma_run_push(s: State, events: Seq<EventView>, event: EventView)
    ensures
        run(s, events.push(event)) == next(run(s, events), event),
        performed(s, events.push(event)) == performed(s, events).push(outstanding(run(s, events))),
{
    assert(events.push(event).drop_last() =~= events);
}

/// A run over two sequences of events in a row is the run over the second
/// from where the first leads.
pub proof fn lemma_run_concat(s: State, first: Seq<EventView>, second: Seq<EventView>)
    ensures
        run(s, first + second) == run(run(s, first), second),
        performed(s, first + second) == performed(s, first) + performed(run(s, first), second),
    decreases second.len(),
{
    if second.len() == 0 {
        assert(first + second =~= first);
        assert(performed(s, first) + Seq::<ActionView>::empty() =~= performed(s, first));
    } else {
        let front = second.drop_last();
        lemma_run_concat(s, first, front);
        assert((first + second).drop_last() =~= first + front);
        assert((first + second).last() == second.last());
        assert(performed(s, first + second) =~= performed(s, first) + performed(
            run(s, first),
            second,
        ));
    }
}

/// Whatever the events, a run from a state that a listener can reach ends
/// in such a state.
pub proof fn lemma_run_wf(s: State, events: Seq<EventView>)
    requires
        s.wf(),
    ensures
        run(s, events).wf(),
    decreases events.len(),
{
    if events.len() > 0 {
        lemma_run_wf(s, events.drop_last());
        lemma_next_wf(run(s, events.drop_last()), events.last());
    }
}

/// The exports among two sequences of actions in a row are the exports of
/// the first followed by those of the second.
pub proof fn lemma_fetches_concat(first: Seq<ActionView>, second: Seq<ActionView>)
    ensures
        fetches(first + second) == fetches(first) + fetches(second),
    decreases second.len(),
{
    if second.len() == 0 {
        assert(first + second =~= first);
        assert(fetches(first) + Seq::<Name>::empty() =~= fetches(first));
    } else {
        lemma_fetches_concat(first, second.drop_last());
        assert((first + second).drop_last() =~= first + second.drop_last());
        assert((first + second).last() == second.last());
        assert(fetches(first + second) =~= fetches(first) + fetches(second));
    }
}

} // verus!
