//! What holds of every listener: the laws of bootstrap, of coalescing and
//! of failure, stated over runs of the state machine.

use crate::model::{entry_phase, halt, initial, next, outstanding, settle, Phase, State};
use crate::names::{absorb, coalesce, lemma_absorb, Name};
use crate::protocol::{ActionView, EventView, Failure};
use crate::registry::{resource_of, RegistryView};
use crate::script::{
    entry_actions, entry_events, fetches, halts, lemma_fetches_concat, lemma_run_concat,
    lemma_run_push, lemma_run_wf, notifications, performed, polls, run, served, service_actions, service_events,
    setup_actions, setup_events,
};
use crate::settings::OUTPUT_DIR;
use vstd::prelude::*;

verus! {

/// Serving a stretch of the batch. From a state that stands at the start
/// of an entry, the exchanges that serve the entries up to `upto` lead to
/// the start of entry `upto`, or to the wait for notifications where the
/// batch ends there; and the actions carried out on the way are exactly
/// those that serve these entries, in the order of the batch.
pub proof fn lemma_serve(s: State, upto: nat, rows: Seq<u32>)
    requires
        s.wf(),
        s.phase == entry_phase(s.registry.registered, s.batch, s.cursor),
        s.cursor <= upto <= s.batch.len(),
        rows.len() == upto - s.cursor,
    ensures
        run(
            s,
            service_events(
                s.registry.registered,
                s.batch.subrange(s.cursor as int, upto as int),
                rows,
            ),
        ) == settle(State { cursor: upto, ..s }),
        performed(
            s,
            service_events(
                s.registry.registered,
                s.batch.subrange(s.cursor as int, upto as int),
                rows,
            ),
        ) == service_actions(
            s.registry.registered,
            s.batch.subrange(s.cursor as int, upto as int),
            rows,
        ),
    decreases upto - s.cursor,
{
    let registered = s.registry.registered;
    let part = s.batch.subrange(s.cursor as int, upto as int);
    if upto == s.cursor {
        assert(run(s, service_events(registered, part, rows)) == s);
    } else {
        let before = (upto - 1) as nat;
        let name = s.batch[before as int];
        let front = s.batch.subrange(s.cursor as int, before as int);
        assert(part.drop_last() =~= front);
        assert(part.last() == name);
        lemma_serve(s, before, rows.drop_last());
        let events = service_events(registered, front, rows.drop_last());
        let mid = settle(State { cursor: before, ..s });
        assert(run(s, events) == mid);
        let exchange = entry_events(registered, name, rows.last());
        lemma_run_concat(s, events, exchange);
        let none = Seq::<EventView>::empty();
        assert(run(mid, none) == mid);
        if resource_of(registered, name) is Some {
            let fetched = EventView::Fetched { rows: rows.last() };
            lemma_run_push(mid, none, fetched);
            lemma_run_push(mid, none.push(fetched), EventView::Done);
            assert(exchange =~= none.push(fetched).push(EventView::Done));
            assert(run(mid, exchange) == settle(State { cursor: upto, ..s }));
            assert(performed(mid, exchange) =~= entry_actions(registered, name, rows.last()));
        } else {
            lemma_run_push(mid, none, EventView::Done);
            assert(exchange =~= none.push(EventView::Done));
            assert(run(mid, exchange) == settle(State { cursor: upto, ..s }));
            assert(performed(mid, exchange) =~= entry_actions(registered, name, rows.last()));
        }
    }
}

/// Hearing notifications. While the listener waits, each notification is
/// answered by another wait, and the names heard join the pending names,
/// each once.
pub proof fn lemma_hear(s: State, heard: Seq<Name>)
    requires
        s.phase == Phase::Polling,
    ensures
        run(s, notifications(heard)) == (State { pending: absorb(s.pending, heard), ..s }),
        performed(s, notifications(heard)) == polls(heard.len()),
    decreases heard.len(),
{
    if heard.len() == 0 {
        assert(performed(s, notifications(heard)) =~= polls(0));
    } else {
        let front = heard.drop_last();
        lemma_hear(s, front);
        assert(notifications(heard).drop_last() =~= notifications(front));
        assert(notifications(heard).last() == EventView::Notified { payload: heard.last() });
        assert(performed(s, notifications(heard)) =~= polls(heard.len()));
    }
}

/// The exports among the actions that serve a batch are the entries of the
/// batch that have a resource, in the order of the batch.
pub proof fn lemma_fetches_of_service(registered: Seq<Name>, batch: Seq<Name>, rows: Seq<u32>)
    requires
        rows.len() == batch.len(),
    ensures
        fetches(service_actions(registered, batch, rows)) == served(registered, batch),
    decreases batch.len(),
{
    if batch.len() > 0 {
        let front = service_actions(registered, batch.drop_last(), rows.drop_last());
        let entry = entry_actions(registered, batch.last(), rows.last());
        lemma_fetches_of_service(registered, batch.drop_last(), rows.drop_last());
        lemma_fetches_concat(front, entry);
        match resource_of(registered, batch.last()) {
            Some(resource) => {
                let export = ActionView::Fetch {
                    name: batch.last(),
                    resource,
                    output_dir: OUTPUT_DIR@,
                };
                assert(entry.drop_last() =~= seq![export]);
                lemma_fetches_one(export);
                assert(fetches(entry) =~= seq![batch.last()]);
                assert(fetches(front) + seq![batch.last()] =~= fetches(front).push(batch.last()));
            },
            None => {
                lemma_fetches_one(ActionView::ReportUnknown { name: batch.last() });
                assert(fetches(front) + Seq::<Name>::empty() =~= fetches(front));
            },
        }
    }
}

/// The exports among a single action: its name where it is an export, and
/// nothing where it is not.
pub proof fn lemma_fetches_one(action: ActionView)
    ensures
        fetches(seq![action]) == (match action {
            ActionView::Fetch { name, .. } => seq![name],
            _ => Seq::<Name>::empty(),
        }),
{
    reveal_with_fuel(fetches, 2);
    assert(seq![action].drop_last() =~= Seq::<ActionView>::empty());
    if let ActionView::Fetch { name, .. } = action {
        assert(Seq::<Name>::empty().push(name) =~= seq![name]);
    }
}

/// A batch of one name is served by the exchanges of that one entry.
pub proof fn lemma_service_one(registered: Seq<Name>, name: Name, rows: u32)
    ensures
        service_events(registered, seq![name], seq![rows]) == entry_events(registered, name, rows),
        service_actions(registered, seq![name], seq![rows]) == entry_actions(
            registered,
            name,
            rows,
        ),
        served(registered, seq![name]) == (if resource_of(registered, name) is Some {
            seq![name]
        } else {
            Seq::<Name>::empty()
        }),
{
    reveal_with_fuel(service_events, 2);
    reveal_with_fuel(service_actions, 2);
    reveal_with_fuel(served, 2);
    assert(seq![name].drop_last() =~= Seq::<Name>::empty());
    assert(service_events(registered, seq![name], seq![rows]) =~= entry_events(
        registered,
        name,
        rows,
    ));
    assert(service_actions(registered, seq![name], seq![rows]) =~= entry_actions(
        registered,
        name,
        rows,
    ));
    assert(Seq::<Name>::empty().push(name) =~= seq![name]);
}

/// No action that serves a batch is a wait for notifications or a request
/// to stop.
pub proof fn lemma_service_actions_serve(registered: Seq<Name>, batch: Seq<Name>, rows: Seq<u32>)
    requires
        rows.len() == batch.len(),
    ensures
        forall|k: int|
            0 <= k < service_actions(registered, batch, rows).len() ==> {
                let action = #[trigger] service_actions(registered, batch, rows)[k];
                action is Fetch || action is ReportWrote || action is ReportUnknown
            },
    decreases batch.len(),
{
    if batch.len() > 0 {
        lemma_service_actions_serve(registered, batch.drop_last(), rows.drop_last());
    }
}

/// Waits for notifications export nothing.
pub proof fn lemma_fetches_of_polls(n: nat)
    ensures
        fetches(polls(n)) == Seq::<Name>::empty(),
    decreases n,
{
    if n > 0 {
        lemma_fetches_of_polls((n - 1) as nat);
        assert(polls(n).drop_last() =~= polls((n - 1) as nat));
    }
}

/// The names exported from a batch are those entries of the batch that
/// have a resource; where no name stands twice in the batch, none is
/// exported twice.
pub proof fn lemma_served(registered: Seq<Name>, batch: Seq<Name>)
    ensures
        forall|name: Name| #[trigger]
            served(registered, batch).contains(name) <==> (batch.contains(name) && resource_of(
                registered,
                name,
            ) is Some),
        batch.no_duplicates() ==> served(registered, batch).no_duplicates(),
    decreases batch.len(),
{
    if batch.len() > 0 {
        let front = batch.drop_last();
        let last = batch.last();
        let out = served(registered, batch);
        let before = served(registered, front);
        lemma_served(registered, front);
        assert forall|name: Name| #[trigger]
            out.contains(name) <==> (batch.contains(name) && resource_of(registered, name) is Some) by {
            if front.contains(name) {
                let i = choose|i: int| 0 <= i < front.len() && front[i] == name;
                assert(batch[i] == name);
            }
            if batch.contains(name) && name != last {
                let i = choose|i: int| 0 <= i < batch.len() && batch[i] == name;
                assert(front[i] == name);
            }
            assert(batch[batch.len() - 1] == last);
            if before.contains(name) {
                let i = choose|i: int| 0 <= i < before.len() && before[i] == name;
                if resource_of(registered, last) is Some {
                    assert(out[i] == name);
                }
            }
            if out.contains(name) && name != last {
                let i = choose|i: int| 0 <= i < out.len() && out[i] == name;
                assert(before[i] == name);
            }
            if resource_of(registered, last) is Some {
                assert(out[out.len() - 1] == last);
            }
        }
        if batch.no_duplicates() {
            assert(front.no_duplicates());
            if resource_of(registered, last) is Some {
                if before.contains(last) {
                    let i = choose|i: int| 0 <= i < front.len() && front[i] == last;
                    assert(batch[i] == batch[batch.len() - 1]);
                }
                assert forall|i: int, j: int|
                    0 <= i < out.len() && 0 <= j < out.len() && i != j implies out[i] != out[j] by {
                    if i == before.len() {
                        assert(before[j] == out[j]);
                    } else if j == before.len() {
                        assert(before[i] == out[i]);
                    }
                }
            }
        }
    }
}

/// Bootstrap is complete and in order. When the three setup steps succeed
/// and no export fails, a new listener serves every entry of the registry's
/// enumeration exactly once, in the order of the enumeration, before it
/// first waits for a notification: a name with a resource is exported and
/// its items reported, a name without one is reported as unknown. The
/// listener then waits, with the bootstrap complete.
pub proof fn law_bootstrap(url: Seq<char>, registry: RegistryView, rows: Seq<u32>)
    requires
        rows.len() == registry.names.len(),
    ensures
        ({
            let events = setup_events() + service_events(registry.registered, registry.names, rows);
            let start = initial(url, registry);
            &&& performed(start, events) == setup_actions(url) + service_actions(
                registry.registered,
                registry.names,
                rows,
            )
            &&& fetches(performed(start, events)) == served(registry.registered, registry.names)
            &&& forall|k: int|
                0 <= k < performed(start, events).len() ==> !(#[trigger] performed(
                    start,
                    events,
                )[k] is Poll)
            &&& run(start, events) == (State {
                phase: Phase::Polling,
                bootstrapped: true,
                cursor: registry.names.len(),
                ..start
            })
        }),
{
    let start = initial(url, registry);
    let service = service_events(registry.registered, registry.names, rows);
    let actions = service_actions(registry.registered, registry.names, rows);
    let ready = lemma_setup(url, registry);
    assert(registry.names.subrange(0, registry.names.len() as int) =~= registry.names);
    lemma_serve(ready, registry.names.len(), rows);
    lemma_run_concat(start, setup_events(), service);
    lemma_fetches_concat(setup_actions(url), actions);
    lemma_fetches_of_service(registry.registered, registry.names, rows);
    lemma_service_actions_serve(registry.registered, registry.names, rows);
    lemma_fetches_of_setup(url);
    assert(Seq::<Name>::empty() + served(registry.registered, registry.names) =~= served(
        registry.registered,
        registry.names,
    ));
}

/// The three setup steps, each answered by success, lead a new listener to
/// the first entry of the bootstrap.
pub proof fn lemma_setup(url: Seq<char>, registry: RegistryView) -> (ready: State)
    ensures
        ready == run(initial(url, registry), setup_events()),
        ready == settle(initial(url, registry)),
        ready.wf(),
        ready.phase == entry_phase(registry.registered, registry.names, 0),
        ready.cursor == 0,
        ready.batch == registry.names,
        ready.registry == registry,
        performed(initial(url, registry), setup_events()) == setup_actions(url),
{
    let start = initial(url, registry);
    let done = EventView::Done;
    let none = Seq::<EventView>::empty();
    lemma_run_push(start, none, done);
    lemma_run_push(start, none.push(done), done);
    lemma_run_push(start, none.push(done).push(done), done);
    assert(setup_events() =~= none.push(done).push(done).push(done));
    assert(run(start, none) == start);
    assert(performed(start, setup_events()) =~= setup_actions(url));
    run(start, setup_events())
}

/// The setup steps export nothing.
pub proof fn lemma_fetches_of_setup(url: Seq<char>)
    ensures
        fetches(setup_actions(url)) == Seq::<Name>::empty(),
{
    let actions = setup_actions(url);
    reveal_with_fuel(fetches, 4);
    assert(actions.drop_last().drop_last().drop_last() =~= Seq::<ActionView>::empty());
}

/// One tick. Let the listener wait with no name pending, let the
/// notifications `heard` arrive within the tick, in any number and with any
/// repetition, and let no export fail. Then every notification is answered
/// by another wait; when the tick ends the names heard are served, each
/// exactly once, in the order of their first arrival; and only then does
/// the listener wait again, with no name pending. The names exported are
/// the names heard that have a resource, none of them twice.
pub proof fn law_tick(s: State, heard: Seq<Name>, rows: Seq<u32>)
    requires
        s.wf(),
        s.phase == Phase::Polling,
        s.pending.len() == 0,
        rows.len() == coalesce(heard).len(),
    ensures
        ({
            let batch = coalesce(heard);
            let events = notifications(heard).push(EventView::Quiet) + service_events(
                s.registry.registered,
                batch,
                rows,
            );
            &&& batch.no_duplicates()
            &&& forall|name: Name| #[trigger] batch.contains(name) <==> heard.contains(name)
            &&& performed(s, events) == polls(heard.len() + 1) + service_actions(
                s.registry.registered,
                batch,
                rows,
            )
            &&& run(s, events) == (State { batch, cursor: batch.len(), ..s })
            &&& fetches(performed(s, events)) == served(s.registry.registered, batch)
            &&& fetches(performed(s, events)).no_duplicates()
            &&& forall|name: Name| #[trigger]
                fetches(performed(s, events)).contains(name) <==> (heard.contains(name)
                    && resource_of(s.registry.registered, name) is Some)
        }),
{
    let registered = s.registry.registered;
    let batch = coalesce(heard);
    let service = service_events(registered, batch, rows);
    let actions = service_actions(registered, batch, rows);
    let tick = notifications(heard).push(EventView::Quiet);

    assert(s.pending =~= Seq::<Name>::empty());
    lemma_absorb(Seq::<Name>::empty(), heard);
    lemma_hear(s, heard);
    lemma_run_push(s, notifications(heard), EventView::Quiet);
    let listening = State { pending: batch, ..s };
    assert(run(s, notifications(heard)) == listening);
    let draining = settle(State { batch, cursor: 0, pending: Seq::empty(), ..s });
    assert(run(s, tick) == draining);
    assert(performed(s, tick) =~= polls(heard.len() + 1));

    assert(draining.wf());
    assert(batch.subrange(0, batch.len() as int) =~= batch);
    lemma_serve(draining, batch.len(), rows);
    lemma_run_concat(s, tick, service);
    assert(settle(State { cursor: batch.len(), ..draining }) == (State {
        batch,
        cursor: batch.len(),
        ..s
    }));

    lemma_fetches_concat(polls(heard.len() + 1), actions);
    lemma_fetches_of_polls(heard.len() + 1);
    lemma_fetches_of_service(registered, batch, rows);
    assert(Seq::<Name>::empty() + served(registered, batch) =~= served(registered, batch));
    lemma_served(registered, batch);
}

/// Coalescing. However many notifications for one name arrive within a
/// tick, be it one or a thousand, the name is exported exactly once when
/// the tick ends, and the listener then waits again.
pub proof fn law_coalescing(s: State, name: Name, copies: nat, rows: u32)
    requires
        s.wf(),
        s.phase == Phase::Polling,
        s.pending.len() == 0,
        copies >= 1,
        resource_of(s.registry.registered, name) is Some,
    ensures
        ({
            let heard = Seq::new(copies, |i: int| name);
            let events = notifications(heard) + seq![
                EventView::Quiet,
                EventView::Fetched { rows },
                EventView::Done,
            ];
            &&& performed(s, events) == polls(copies + 1) + seq![
                ActionView::Fetch {
                    name,
                    resource: resource_of(s.registry.registered, name).unwrap(),
                    output_dir: OUTPUT_DIR@,
                },
                ActionView::ReportWrote { name, rows },
            ]
            &&& fetches(performed(s, events)) == seq![name]
            &&& outstanding(run(s, events)) == outstanding(s)
            &&& run(s, events).pending.len() == 0
        }),
{
    let registered = s.registry.registered;
    let heard = Seq::new(copies, |i: int| name);
    lemma_coalesce_copies(name, copies);
    let batch = seq![name];
    assert(coalesce(heard) == batch);
    let exchange = seq![EventView::Fetched { rows }, EventView::Done];
    lemma_service_one(registered, name, rows);
    law_tick(s, heard, seq![rows]);
    assert(notifications(heard) + seq![
        EventView::Quiet,
        EventView::Fetched { rows },
        EventView::Done,
    ] =~= notifications(heard).push(EventView::Quiet) + exchange);
}

/// Any number of notifications for one name, one at least, leave that one
/// name pending.
pub proof fn lemma_coalesce_copies(name: Name, copies: nat)
    requires
        copies >= 1,
    ensures
        coalesce(Seq::new(copies, |i: int| name)) == seq![name],
    decreases copies,
{
    let heard = Seq::new(copies, |i: int| name);
    let front = Seq::new((copies - 1) as nat, |i: int| name);
    assert(heard.drop_last() =~= front);
    if copies == 1 {
        assert(absorb(Seq::empty(), front) == Seq::<Name>::empty());
        assert(Seq::<Name>::empty().push(name) =~= seq![name]);
    } else {
        lemma_coalesce_copies(name, (copies - 1) as nat);
        assert(seq![name][0] == name);
    }
}

/// An unknown name is no failure. Where the entry at the cursor has no
/// resource behind it, the outstanding action is the report that the name
/// is unknown, not an export; once it is reported the listener goes on to
/// the next entry, or waits again where there is none, and has not stopped.
pub proof fn law_unknown_is_soft(s: State)
    requires
        s.wf(),
        s.cursor < s.batch.len(),
        s.phase == entry_phase(s.registry.registered, s.batch, s.cursor),
        resource_of(s.registry.registered, s.batch[s.cursor as int]) is None,
    ensures
        outstanding(s) == (ActionView::ReportUnknown { name: s.batch[s.cursor as int] }),
        next(s, EventView::Done) == settle(State { cursor: s.cursor + 1, ..s }),
        !next(s, EventView::Done).halted(),
        next(s, EventView::Done).phase == entry_phase(
            s.registry.registered,
            s.batch,
            s.cursor + 1,
        ),
{
}

/// A notification for an unknown name passes without harm. When a single
/// notification for a name without a resource arrives within a tick, the
/// name is reported as unknown when the tick ends; nothing is exported, and
/// the listener waits again.
pub proof fn law_unknown_notification(s: State, name: Name)
    requires
        s.wf(),
        s.phase == Phase::Polling,
        s.pending.len() == 0,
        resource_of(s.registry.registered, name) is None,
    ensures
        ({
            let events = seq![
                EventView::Notified { payload: name },
                EventView::Quiet,
                EventView::Done,
            ];
            &&& performed(s, events) == polls(2).push(ActionView::ReportUnknown { name })
            &&& fetches(performed(s, events)) == Seq::<Name>::empty()
            &&& outstanding(run(s, events)) == outstanding(s)
            &&& run(s, events).pending.len() == 0
        }),
{
    let registered = s.registry.registered;
    let heard = seq![name];
    lemma_coalesce_copies(name, 1);
    assert(Seq::new(1, |i: int| name) =~= heard);
    lemma_service_one(registered, name, 0);
    law_tick(s, heard, seq![0u32]);
    assert(seq![EventView::Notified { payload: name }, EventView::Quiet, EventView::Done]
        =~= notifications(heard).push(EventView::Quiet) + seq![EventView::Done]);
    assert(polls(2) + seq![ActionView::ReportUnknown { name }] =~= polls(2).push(
        ActionView::ReportUnknown { name },
    ));
}

/// A stopped listener stays stopped. Whatever events follow, the state
/// does not change and the only action asked for is to stop.
pub proof fn law_halt_is_final(s: State, failure: Failure, events: Seq<EventView>)
    requires
        s.phase == (Phase::Halted { failure }),
    ensures
        run(s, events) == s,
        performed(s, events) == halts(events.len(), failure),
    decreases events.len(),
{
    if events.len() == 0 {
        assert(performed(s, events) =~= halts(0, failure));
    } else {
        law_halt_is_final(s, failure, events.drop_last());
        assert(performed(s, events) =~= halts(events.len(), failure));
    }
}

/// A failed export is fatal. Whenever an export fails the listener stops,
/// and whatever events follow, it asks for nothing but to stop: no later
/// entry of the batch is served.
pub proof fn law_fetch_failure_is_fatal(s: State, rest: Seq<EventView>)
    requires
        s.wf(),
        s.phase == Phase::Fetching,
    ensures
        run(s, seq![EventView::Failed] + rest) == halt(s, Failure::Fetch),
        performed(s, seq![EventView::Failed] + rest) == seq![outstanding(s)] + halts(
            rest.len(),
            Failure::Fetch,
        ),
        fetches(performed(s, seq![EventView::Failed] + rest)) == seq![s.batch[s.cursor as int]],
{
    let failed = seq![EventView::Failed];
    lemma_run_push(s, Seq::empty(), EventView::Failed);
    lemma_run_concat(s, failed, rest);
    law_halt_is_final(halt(s, Failure::Fetch), Failure::Fetch, rest);
    assert(performed(s, failed) =~= seq![outstanding(s)]);
    lemma_fetches_concat(seq![outstanding(s)], halts(rest.len(), Failure::Fetch));
    lemma_fetches_of_halts(rest.len(), Failure::Fetch);
    lemma_fetches_one(outstanding(s));
    assert(seq![s.batch[s.cursor as int]] + Seq::<Name>::empty() =~= seq![
        s.batch[s.cursor as int],
    ]);
}

/// Requests to stop export nothing.
pub proof fn lemma_fetches_of_halts(n: nat, failure: Failure)
    ensures
        fetches(halts(n, failure)) == Seq::<Name>::empty(),
    decreases n,
{
    if n > 0 {
        lemma_fetches_of_halts((n - 1) as nat, failure);
        assert(halts(n, failure).drop_last() =~= halts((n - 1) as nat, failure));
    }
}

/// Bootstrap fails fast. Let the setup succeed and the first `served_before`
/// entries of the enumeration be served without failure, and let the export
/// of the next entry fail. Then the listener stops: the actions carried out
/// are the setup, the serving of those first entries, the export that
/// failed, and from then on only requests to stop, whatever events follow.
/// No later entry of the enumeration is exported or reported.
pub proof fn law_bootstrap_fails_fast(
    url: Seq<char>,
    registry: RegistryView,
    served_before: nat,
    rows: Seq<u32>,
    rest: Seq<EventView>,
)
    requires
        served_before < registry.names.len(),
        rows.len() == served_before,
        resource_of(registry.registered, registry.names[served_before as int]) is Some,
    ensures
        ({
            let start = initial(url, registry);
            let head = registry.names.subrange(0, served_before as int);
            let failing = registry.names[served_before as int];
            let events = setup_events() + service_events(registry.registered, head, rows) + seq![
                EventView::Failed,
            ] + rest;
            &&& run(start, events).phase == (Phase::Halted { failure: Failure::Fetch })
            &&& !run(start, events).bootstrapped
            &&& performed(start, events) == setup_actions(url) + service_actions(
                registry.registered,
                head,
                rows,
            ) + seq![
                ActionView::Fetch {
                    name: failing,
                    resource: resource_of(registry.registered, failing).unwrap(),
                    output_dir: OUTPUT_DIR@,
                },
            ] + halts(rest.len(), Failure::Fetch)
            &&& fetches(performed(start, events)) == served(registry.registered, head).push(
                failing,
            )
        }),
{
    let start = initial(url, registry);
    let registered = registry.registered;
    let head = registry.names.subrange(0, served_before as int);
    let failing = registry.names[served_before as int];
    let service = service_events(registered, head, rows);
    let actions = service_actions(registered, head, rows);
    let tail = seq![EventView::Failed] + rest;
    let export = ActionView::Fetch {
        name: failing,
        resource: resource_of(registered, failing).unwrap(),
        output_dir: OUTPUT_DIR@,
    };

    let ready = lemma_setup(url, registry);
    lemma_serve(ready, served_before, rows);
    let failing_state = settle(State { cursor: served_before, ..ready });
    assert(run(ready, service) == failing_state);
    assert(failing_state.phase == Phase::Fetching);
    assert(failing_state.wf());
    assert(outstanding(failing_state) == export);
    law_fetch_failure_is_fatal(failing_state, rest);

    lemma_run_concat(start, setup_events(), service);
    lemma_run_concat(start, setup_events() + service, tail);
    assert(setup_events() + service + seq![EventView::Failed] + rest =~= (setup_events()
        + service) + tail);
    assert(setup_actions(url) + actions + (seq![export] + halts(rest.len(), Failure::Fetch))
        =~= setup_actions(url) + actions + seq![export] + halts(rest.len(), Failure::Fetch));

    lemma_fetches_of_setup(url);
    lemma_fetches_of_service(registered, head, rows);
    lemma_fetches_concat(setup_actions(url), actions);
    lemma_fetches_concat(setup_actions(url) + actions, seq![export] + halts(
        rest.len(),
        Failure::Fetch,
    ));
    assert(Seq::<Name>::empty() + served(registered, head) =~= served(registered, head));
    assert(served(registered, head) + seq![failing] =~= served(registered, head).push(failing));
}

/// Every state that a new listener reaches, whatever the events, is a
/// state as `State::wf` describes it; in particular no name is ever pending
/// twice.
pub proof fn law_reachable(url: Seq<char>, registry: RegistryView, events: Seq<EventView>)
    ensures
        run(initial(url, registry), events).wf(),
        run(initial(url, registry), events).pending.no_duplicates(),
{
    lemma_run_wf(initial(url, registry), events);
}

} // verus!
