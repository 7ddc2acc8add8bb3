//! What a balanced value is, as a sequence of events, and how the scan of
//! `scan_event` walks through one.

use vstd::prelude::*;
use crate::event::EventModel;
use crate::scan::scan_event;
use crate::scan::ScanModel;

verus! {

/// What an event adds to the number of open containers.
pub open spec fn delta(event: EventModel) -> int {
    if event.opens() {
        1
    } else if event.closes() {
        -1
    } else {
        0
    }
}

/// The opening events of `events` less the closing ones.
pub open spec fn net_depth(events: Seq<EventModel>) -> int
    decreases events.len(),
{
    if events.len() == 0 {
        0
    } else {
        net_depth(events.drop_last()) + delta(events.last())
    }
}

/// `events` holds no end of stream.
pub open spec fn no_eof(events: Seq<EventModel>) -> bool {
    forall|i: int| 0 <= i < events.len() ==> !((#[trigger] events[i]) is Eof)
}

/// Every prefix of `events` but the empty one leaves a container open.
pub open spec fn stays_open(events: Seq<EventModel>) -> bool {
    forall|n: int| 0 < n <= events.len() ==> net_depth(#[trigger] events.take(n)) >= 1
}

/// `events` is one balanced value: either a single event that neither
/// opens nor closes a container, or a container from its opening event to
/// the closing event that matches it, so that as many events open as
/// close and something is open after every prefix but the whole.
pub open spec fn is_value(events: Seq<EventModel>) -> bool {
    &&& events.len() >= 1
    &&& no_eof(events)
    &&& if events.len() == 1 {
        delta(events[0]) == 0
    } else {
        net_depth(events) == 0 && stays_open(events.drop_last())
    }
}

/// The net depth of a sequence with one more event.
pub proof fn lemma_net_depth_push(events: Seq<EventModel>, event: EventModel)
    ensures
        net_depth(events.push(event)) == net_depth(events) + delta(event),
{
    assert(events.push(event).drop_last() =~= events);
}

/// The net depth after one more event of a sequence.
pub proof fn lemma_net_depth_take(events: Seq<EventModel>, n: int)
    requires
        0 <= n < events.len(),
    ensures
        net_depth(events.take(n + 1)) == net_depth(events.take(n)) + delta(events[n]),
{
    assert(events.take(n + 1) =~= events.take(n).push(events[n]));
    lemma_net_depth_push(events.take(n), events[n]);
}

/// A single event that opens and closes nothing has net depth zero, and so
/// has every value.
pub proof fn lemma_value_net_depth(value: Seq<EventModel>)
    requires
        is_value(value),
    ensures
        net_depth(value) == 0,
{
    if value.len() == 1 {
        assert(value.drop_last() =~= Seq::<EventModel>::empty());
        assert(net_depth(value.drop_last()) == 0);
    }
}

/// The depth before the event at `n` of a value.
pub open spec fn depth_at(value: Seq<EventModel>, n: int) -> nat {
    net_depth(value.take(n)) as nat
}

/// The scan of a value: every event but the last leaves the scan inside,
/// at the net depth of the events so far, and the last completes it.
pub proof fn lemma_value_scan(value: Seq<EventModel>, n: int)
    requires
        is_value(value),
        0 <= n < value.len(),
    ensures
        net_depth(value.take(n)) >= 0,
        n + 1 < value.len() ==> scan_event(depth_at(value, n), value[n]) == ScanModel::Inside(
            depth_at(value, n + 1),
        ),
        n + 1 == value.len() ==> scan_event(depth_at(value, n), value[n]) == ScanModel::Complete,
{
    let len = value.len() as int;
    lemma_net_depth_take(value, n);
    assert(!(value[n] is Eof));
    assert(value.take(len) =~= value);
    if len == 1 {
        assert(value.take(0) =~= Seq::<EventModel>::empty());
    } else {
        let body = value.drop_last();
        assert(value.take(n) =~= body.take(n));
        if n == 0 {
            assert(value.take(0) =~= Seq::<EventModel>::empty());
            assert(net_depth(body.take(1)) >= 1);
            assert(value.take(1) =~= body.take(1));
        } else {
            assert(net_depth(body.take(n)) >= 1);
            if n + 1 < len {
                assert(net_depth(body.take(n + 1)) >= 1);
                assert(value.take(n + 1) =~= body.take(n + 1));
            }
        }
    }
}

} // verus!
