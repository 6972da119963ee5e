//! Delay tests of all nodes.

use crate::bulk;
use crate::bulk::{BulkDelayEvent, BulkRun};
use crate::number;
use vstd::prelude::*;

verus! {

/// Whether an event reports a delay of a node.
pub open spec fn measures(event: BulkDelayEvent, node: Seq<char>) -> bool {
    event is Item && event->node@ == node && event->delay is Some
}

proof fn lemma_one_report(run: BulkRun, event: BulkDelayEvent, node: Seq<char>)
    ensures
        ({
            let after = bulk::after_event(run, event).delays;
            &&& measures(event, node) ==> after.dom().contains(node) && after[node]
                == event->delay->0
            &&& !measures(event, node) ==> after.dom().contains(node) == run.delays.dom().contains(
                node,
            ) && (run.delays.dom().contains(node) ==> after[node] == run.delays[node])
        }),
{
}

proof fn lemma_unreported(run: BulkRun, events: Seq<BulkDelayEvent>, node: Seq<char>)
    requires
        forall|j: int| 0 <= j < events.len() ==> !#[trigger] measures(events[j], node),
    ensures
        ({
            let after = bulk::after_events(run, events).delays;
            &&& after.dom().contains(node) == run.delays.dom().contains(node)
            &&& run.delays.dom().contains(node) ==> after[node] == run.delays[node]
        }),
    decreases events.len(),
{
    if events.len() > 0 {
        let before = events.drop_last();
        assert forall|j: int| 0 <= j < before.len() implies !#[trigger] measures(before[j], node) by {
            assert(!measures(events[j], node));
        }
        lemma_unreported(run, before, node);
        assert(!measures(events[events.len() - 1], node));
        lemma_one_report(bulk::after_events(run, before), events.last(), node);
    }
}

/// After everything that was reported, a node has the delay that was reported for it last,
/// whatever was known of it before.
pub proof fn law_last_delay_stands(
    run: BulkRun,
    events: Seq<BulkDelayEvent>,
    node: Seq<char>,
    i: int,
)
    requires
        0 <= i < events.len(),
        measures(events[i], node),
        forall|j: int| i < j < events.len() ==> !#[trigger] measures(events[j], node),
    ensures
        ({
            let after = bulk::closed(bulk::after_events(run, events)).delays;
            after.dom().contains(node) && after[node] == events[i]->delay->0
        }),
    decreases events.len(),
{
    let before = events.drop_last();
    lemma_one_report(bulk::after_events(run, before), events.last(), node);
    if i < before.len() {
        assert(measures(before[i], node));
        assert forall|j: int| i < j < before.len() implies !#[trigger] measures(before[j], node) by {
            assert(!measures(events[j], node));
        }
        law_last_delay_stands(run, before, node, i);
        assert(!measures(events[events.len() - 1], node));
    }
}

/// What was known of a node for which no delay is reported stays.
pub proof fn law_other_delays_stay(run: BulkRun, events: Seq<BulkDelayEvent>, node: Seq<char>)
    requires
        forall|j: int| 0 <= j < events.len() ==> !#[trigger] measures(events[j], node),
    ensures
        ({
            let after = bulk::closed(bulk::after_events(run, events)).delays;
            &&& after.dom().contains(node) == run.delays.dom().contains(node)
            &&& run.delays.dom().contains(node) ==> after[node] == run.delays[node]
        }),
{
    lemma_unreported(run, events, node);
}

/// How many of the events report a node that was reached, or one that was not.
pub open spec fn reported(events: Seq<BulkDelayEvent>, reached: bool) -> nat {
    events.filter(|e: BulkDelayEvent| e is Item && (e->delay is Some) == reached).len()
}

proof fn lemma_reported(events: Seq<BulkDelayEvent>, reached: bool)
    requires
        events.len() > 0,
    ensures
        reported(events, reached) == reported(events.drop_last(), reached) + if events.last() is Item
            && (events.last()->delay is Some) == reached {
            1nat
        } else {
            0nat
        },
{
    reveal(Seq::filter);
}

/// A test counts every node that is reported once: as reached where a delay is reported, else as
/// failed. What is tested, and how, stays until another test begins.
pub proof fn law_reports_are_counted(run: BulkRun, events: Seq<BulkDelayEvent>)
    requires
        forall|i: int| 0 <= i < events.len() ==> !((#[trigger] events[i]) is Started),
        run.progress.done + events.len() <= usize::MAX,
        run.progress.success + events.len() <= usize::MAX,
        run.progress.failed + events.len() <= usize::MAX,
    ensures
        ({
            let p = bulk::after_events(run, events).progress;
            &&& p.success == run.progress.success + reported(events, true)
            &&& p.failed == run.progress.failed + reported(events, false)
            &&& p.done == run.progress.done + reported(events, true) + reported(events, false)
            &&& p.total == run.progress.total
            &&& p.url == run.progress.url
            &&& p.timeout_ms == run.progress.timeout_ms
            &&& p.running == run.progress.running
            &&& reported(events, true) + reported(events, false) <= events.len()
        }),
    decreases events.len(),
{
    reveal(Seq::filter);
    if events.len() > 0 {
        let before = events.drop_last();
        assert forall|i: int| 0 <= i < before.len() implies !((#[trigger] before[i]) is Started) by {
            assert(before[i] == events[i]);
        }
        law_reports_are_counted(run, before);
        lemma_reported(events, true);
        lemma_reported(events, false);
        assert(!(events[events.len() - 1] is Started));
    }
}

/// A test that begins counts from nothing.
pub proof fn law_test_begins_at_nothing(run: BulkRun, event: BulkDelayEvent)
    requires
        event is Started,
    ensures
        ({
            let p = bulk::after_event(run, event).progress;
            &&& p.running
            &&& p.total == event->total
            &&& p.url == event->url@
            &&& p.timeout_ms == event->Started_timeout_ms
            &&& p.done == 0 && p.success == 0 && p.failed == 0
        }),
        bulk::after_event(run, event).delays == run.delays,
        bulk::after_event(run, event).notes == run.notes.push(
            "bulk delay started: "@ + number::dec(event->total as nat) + " nodes, url="@
                + event->url@ + ", timeout="@ + number::dec(event->Started_timeout_ms as nat) + "ms"@,
        ),
{
}

/// Of a node that fails with an error, the log says so; and after every twentieth node and the last
/// one it says how many are done, how many were reached and how many failed.
pub proof fn law_reports_are_told(run: BulkRun, event: BulkDelayEvent)
    requires
        event is Item,
    ensures
        ({
            let after = bulk::after_event(run, event);
            let failure = if event->delay is None && event->error is Some {
                seq!["delay failed: "@ + event->node@ + " ("@ + event->error->0@ + ")"@]
            } else {
                seq![]
            };
            let progress = if after.progress.done == after.progress.total || after.progress.done % 20
                == 0 {
                seq![
                    "bulk delay progress: "@ + number::dec(after.progress.done as nat) + "/"@
                        + number::dec(after.progress.total as nat) + " (ok "@ + number::dec(
                        after.progress.success as nat,
                    ) + ", fail "@ + number::dec(after.progress.failed as nat) + ")"@,
                ]
            } else {
                seq![]
            };
            after.notes == run.notes + failure + progress
        }),
{
    let after = bulk::after_event(run, event);
    let failure = if event->delay is None && event->error is Some {
        seq!["delay failed: "@ + event->node@ + " ("@ + event->error->0@ + ")"@]
    } else {
        seq![]
    };
    let progress = if after.progress.done == after.progress.total || after.progress.done % 20
        == 0 {
        seq![
            "bulk delay progress: "@ + number::dec(after.progress.done as nat) + "/"@
                + number::dec(after.progress.total as nat) + " (ok "@ + number::dec(
                after.progress.success as nat,
            ) + ", fail "@ + number::dec(after.progress.failed as nat) + ")"@,
        ]
    } else {
        seq![]
    };
    assert(after.notes =~= run.notes + failure + progress);
}

/// A test ends exactly when its end is reported; then it no longer runs, and the log says how it
/// went.
pub proof fn law_test_ends_when_reported(run: BulkRun, events: Seq<BulkDelayEvent>)
    requires
        !run.finished,
    ensures
        ({
            let open = bulk::after_events(run, events);
            let after = bulk::closed(open);
            &&& after.finished <==> exists|i: int|
                0 <= i < events.len() && (#[trigger] events[i]) is Finished
            &&& after.finished ==> !after.progress.running && after.notes == open.notes.push(
                "bulk delay finished: "@ + number::dec(open.progress.success as nat) + "/"@
                    + number::dec(open.progress.total as nat) + " ok, "@ + number::dec(
                    open.progress.failed as nat,
                ) + " failed"@,
            )
            &&& !after.finished ==> after == open
            &&& after.progress.done == open.progress.done
            &&& after.progress.success == open.progress.success
            &&& after.progress.failed == open.progress.failed
            &&& after.progress.total == open.progress.total
        }),
    decreases events.len(),
{
    if events.len() > 0 {
        let before = events.drop_last();
        law_test_ends_when_reported(run, before);
        if exists|i: int| 0 <= i < events.len() && (#[trigger] events[i]) is Finished {
            let i = choose|i: int| 0 <= i < events.len() && (#[trigger] events[i]) is Finished;
            if i < before.len() {
                assert(before[i] is Finished);
            }
        }
        if exists|i: int| 0 <= i < before.len() && (#[trigger] before[i]) is Finished {
            let i = choose|i: int| 0 <= i < before.len() && (#[trigger] before[i]) is Finished;
            assert(events[i] is Finished);
        }
        if events.last() is Finished {
            assert(events[events.len() - 1] is Finished);
        }
    }
}

/// Before the first test nothing runs and nothing is counted.
pub proof fn law_no_test_yet()
    ensures
        ({
            let p = bulk::BulkModel::initial();
            &&& !p.running
            &&& p.total == 0 && p.done == 0 && p.success == 0 && p.failed == 0
            &&& p.url.len() == 0 && p.timeout_ms == 0
        }),
{
}

} // verus!
