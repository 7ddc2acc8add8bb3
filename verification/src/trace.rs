//! What the navigator makes of a whole sequence of events: the records it
//! hands on, in order, and where it ends.

use vstd::prelude::*;
use crate::event::EventModel;
use crate::navigator::transition;
use crate::navigator::Action;
use crate::navigator::PhaseModel;
use crate::scan::scan_event;
use crate::scan::ScanModel;
use crate::value::depth_at;
use crate::value::is_value;
use crate::value::lemma_net_depth_push;
use crate::value::lemma_value_scan;
use crate::value::net_depth;
use crate::value::no_eof;
use crate::value::stays_open;

verus! {

/// The navigation so far.
pub struct Trace {
    /// Where the navigator stands.
    pub phase: PhaseModel,
    /// The events of each record that was completed, in the order in which
    /// the records were read.
    pub records: Seq<Seq<EventModel>>,
    /// The events of the record in flight that were read so far.
    pub partial: Seq<EventModel>,
}

/// The navigation before the first event.
pub open spec fn start() -> Trace {
    Trace { phase: PhaseModel::Start, records: Seq::empty(), partial: Seq::empty() }
}

/// The navigation after one more event.
pub open spec fn observe(target: Seq<char>, trace: Trace, event: EventModel) -> Trace {
    let (phase, action) = transition(target, trace.phase, event);
    match action {
        Action::Forward => Trace {
            phase,
            records: trace.records,
            partial: trace.partial.push(event),
        },
        Action::ForwardAndFlush => Trace {
            phase,
            records: trace.records.push(trace.partial.push(event)),
            partial: Seq::empty(),
        },
        _ => Trace { phase, records: trace.records, partial: trace.partial },
    }
}

/// The navigation after `events`, taken up at `trace`.
pub open spec fn run_from(target: Seq<char>, trace: Trace, events: Seq<EventModel>) -> Trace
    decreases events.len(),
{
    if events.len() == 0 {
        trace
    } else {
        observe(target, run_from(target, trace, events.drop_last()), events.last())
    }
}

/// The navigation of a whole sequence of events.
pub open spec fn run(target: Seq<char>, events: Seq<EventModel>) -> Trace {
    run_from(target, start(), events)
}

/// `trace` with another phase.
pub open spec fn at(trace: Trace, phase: PhaseModel) -> Trace {
    Trace { phase, records: trace.records, partial: trace.partial }
}

/// The record in flight is the beginning of a value that is not yet
/// complete, and nothing is in flight outside a record.
pub open spec fn coherent(trace: Trace) -> bool {
    match trace.phase {
        PhaseModel::Record(depth) => {
            &&& depth == net_depth(trace.partial)
            &&& no_eof(trace.partial)
            &&& stays_open(trace.partial)
        },
        PhaseModel::Failed(_) => true,
        _ => trace.partial.len() == 0,
    }
}

/// Events are taken one after the other.
pub proof fn lemma_run_push(target: Seq<char>, trace: Trace, events: Seq<EventModel>, event: EventModel)
    ensures
        run_from(target, trace, events.push(event)) == observe(
            target,
            run_from(target, trace, events),
            event,
        ),
{
    assert(events.push(event).drop_last() =~= events);
}

/// Reading two sequences in turn is reading the two as one.
pub proof fn lemma_run_append(
    target: Seq<char>,
    trace: Trace,
    first: Seq<EventModel>,
    second: Seq<EventModel>,
)
    ensures
        run_from(target, trace, first + second) == run_from(
            target,
            run_from(target, trace, first),
            second,
        ),
    decreases second.len(),
{
    if second.len() == 0 {
        assert(first + second =~= first);
    } else {
        lemma_run_append(target, trace, first, second.drop_last());
        assert((first + second).drop_last() =~= first + second.drop_last());
        assert((first + second).last() == second.last());
    }
}

/// One event keeps a coherent navigation coherent, and a record that it
/// completes is a value.
pub proof fn lemma_observe_coherent(target: Seq<char>, trace: Trace, event: EventModel)
    requires
        coherent(trace),
        forall|i: int| 0 <= i < trace.records.len() ==> is_value(#[trigger] trace.records[i]),
    ensures
        coherent(observe(target, trace, event)),
        forall|i: int|
            0 <= i < observe(target, trace, event).records.len() ==> is_value(
                #[trigger] observe(target, trace, event).records[i],
            ),
{
    let next = observe(target, trace, event);
    if let PhaseModel::Record(depth) = trace.phase {
        let grown = trace.partial.push(event);
        lemma_net_depth_push(trace.partial, event);
        assert(grown.drop_last() =~= trace.partial);
        assert(trace.partial.take(trace.partial.len() as int) =~= trace.partial);
        match scan_event(depth, event) {
            ScanModel::Inside(deeper) => {
                assert(next.partial == grown);
                assert(no_eof(grown));
                assert forall|n: int| 0 < n <= grown.len() implies net_depth(
                    #[trigger] grown.take(n),
                ) >= 1 by {
                    if n == grown.len() {
                        assert(grown.take(n) =~= grown);
                    } else {
                        assert(grown.take(n) =~= trace.partial.take(n));
                    }
                }
            },
            ScanModel::Complete => {
                assert(next.records == trace.records.push(grown));
                assert(no_eof(grown));
                assert(is_value(grown));
            },
            _ => {},
        }
    }
}

/// Every record that the navigator completes is a balanced value, whatever
/// the events are.
pub proof fn lemma_run_coherent(target: Seq<char>, events: Seq<EventModel>)
    ensures
        coherent(run(target, events)),
        forall|i: int|
            0 <= i < run(target, events).records.len() ==> is_value(
                #[trigger] run(target, events).records[i],
            ),
    decreases events.len(),
{
    if events.len() > 0 {
        lemma_run_coherent(target, events.drop_last());
        lemma_observe_coherent(target, run(target, events.drop_last()), events.last());
    }
}

/// While the first events of a value are skipped, the navigator is as deep
/// as the events say and nothing else changes.
pub proof fn lemma_skip_prefix(target: Seq<char>, trace: Trace, value: Seq<EventModel>, n: int)
    requires
        trace.phase == PhaseModel::Skipping(0),
        is_value(value),
        0 <= n < value.len(),
    ensures
        run_from(target, trace, value.take(n)) == at(
            trace,
            PhaseModel::Skipping(depth_at(value, n)),
        ),
    decreases n,
{
    if n == 0 {
        assert(value.take(0) =~= Seq::<EventModel>::empty());
    } else {
        lemma_skip_prefix(target, trace, value, n - 1);
        lemma_value_scan(value, n - 1);
        assert(value.take(n) =~= value.take(n - 1).push(value[n - 1]));
        lemma_run_push(target, trace, value.take(n - 1), value[n - 1]);
    }
}

/// A value that is skipped leaves the navigator where it was before the
/// value's key.
pub proof fn lemma_skip_value(target: Seq<char>, trace: Trace, value: Seq<EventModel>)
    requires
        trace.phase == PhaseModel::Skipping(0),
        is_value(value),
    ensures
        run_from(target, trace, value) == at(trace, PhaseModel::Root),
{
    let n = value.len() - 1;
    lemma_skip_prefix(target, trace, value, n);
    lemma_value_scan(value, n);
    assert(value =~= value.take(n).push(value[n]));
    lemma_run_push(target, trace, value.take(n), value[n]);
}

/// While the first events of a record's value are read, they are the
/// record in flight.
pub proof fn lemma_record_prefix(target: Seq<char>, trace: Trace, value: Seq<EventModel>, n: int)
    requires
        trace.phase == PhaseModel::Record(0),
        trace.partial.len() == 0,
        is_value(value),
        0 <= n < value.len(),
    ensures
        run_from(target, trace, value.take(n)) == (Trace {
            phase: PhaseModel::Record(depth_at(value, n)),
            records: trace.records,
            partial: value.take(n),
        }),
    decreases n,
{
    if n == 0 {
        assert(value.take(0) =~= Seq::<EventModel>::empty());
        assert(trace.partial =~= Seq::<EventModel>::empty());
    } else {
        lemma_record_prefix(target, trace, value, n - 1);
        lemma_value_scan(value, n - 1);
        assert(value.take(n) =~= value.take(n - 1).push(value[n - 1]));
        lemma_run_push(target, trace, value.take(n - 1), value[n - 1]);
    }
}

/// A record's value is handed on whole, and the navigator is back in the
/// collection.
pub proof fn lemma_record_value(target: Seq<char>, trace: Trace, value: Seq<EventModel>)
    requires
        trace.phase == PhaseModel::Record(0),
        trace.partial.len() == 0,
        is_value(value),
    ensures
        run_from(target, trace, value) == (Trace {
            phase: PhaseModel::Collection,
            records: trace.records.push(value),
            partial: Seq::empty(),
        }),
{
    let n = value.len() - 1;
    lemma_record_prefix(target, trace, value, n);
    lemma_value_scan(value, n);
    assert(value =~= value.take(n).push(value[n]));
    lemma_run_push(target, trace, value.take(n), value[n]);
}

} // verus!
