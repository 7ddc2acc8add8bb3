//! How the extraction of a sequence of events stands to its navigation:
//! the two agree until the serializer refuses an event.

use vstd::prelude::*;
use crate::document::lemma_root_members;
use crate::document::members_events;
use crate::document::well_formed;
use crate::document::without_key;
use crate::document::Member;
use crate::event::EventModel;
use crate::navigator::PhaseModel;
use crate::record::lemma_text_push;
use crate::record::lines_of;
use crate::record::text_of;
use crate::session::opening;
use crate::session::play;
use crate::session::play_event;
use crate::session::respond;
use crate::session::Session;
use crate::session::State;
use crate::trace::observe;
use crate::trace::run;
use crate::trace::start;
use crate::trace::Trace;

verus! {

/// The serializer accepts every record of the navigation, and what there
/// is of the record in flight.
pub open spec fn accepted(trace: Trace) -> bool {
    &&& forall|i: int| 0 <= i < trace.records.len() ==> text_of(#[trigger] trace.records[i]) is Some
    &&& text_of(trace.partial) is Some
}

/// How a session stands to the navigation of the same events: until the
/// serializer refuses an event the two agree, and after a refusal the
/// records written are the first of those that the navigator handed on.
pub open spec fn follows(session: Session, trace: Trace) -> bool {
    &&& session.output == lines_of(session.records)
    &&& forall|i: int|
        0 <= i < session.records.len() ==> text_of(#[trigger] session.records[i]) is Some
    &&& if session.state.refused {
        &&& session.records.len() <= trace.records.len()
        &&& session.records == trace.records.take(session.records.len() as int)
    } else {
        &&& session.state.phase == trace.phase
        &&& session.state.partial == trace.partial
        &&& session.records == trace.records
        &&& text_of(trace.partial) is Some
    }
}

/// One event keeps a session with the navigation.
pub proof fn lemma_step_follows(target: Seq<char>, session: Session, trace: Trace, event: EventModel)
    requires
        follows(session, trace),
    ensures
        follows(play_event(target, session, event), observe(target, trace, event)),
        accepted(observe(target, trace, event)) ==> accepted(trace),
        accepted(trace) && !session.state.refused && accepted(observe(target, trace, event))
            ==> !play_event(target, session, event).state.refused,
{
    reveal(respond);
    let next = play_event(target, session, event);
    let seen = observe(target, trace, event);
    let grown = trace.partial.push(event);
    lemma_text_push(trace.partial, event);
    assert(seen.records.len() >= trace.records.len());
    assert(seen.records.take(trace.records.len() as int) =~= trace.records);
    if session.state.refused {
        assert(next == session);
        assert(session.records =~= seen.records.take(session.records.len() as int));
    } else if next.state.refused {
        assert(next.records == trace.records);
    }
    if accepted(seen) {
        assert forall|i: int| 0 <= i < trace.records.len() implies text_of(
            #[trigger] trace.records[i],
        ) is Some by {
            assert(seen.records[i] == trace.records[i]);
        }
        if seen.records.len() > trace.records.len() {
            assert(seen.records[trace.records.len() as int] == grown);
        }
    }
}

/// A session goes with the navigation of the same events, and the
/// serializer refuses an event of the session exactly where it does not
/// accept all that the navigator hands on.
pub proof fn lemma_play_follows_run(target: Seq<char>, events: Seq<EventModel>)
    ensures
        follows(play(target, events), run(target, events)),
        accepted(run(target, events)) <==> !play(target, events).state.refused,
    decreases events.len(),
{
    if events.len() == 0 {
        assert(opening().records =~= start().records);
        assert(text_of(Seq::<EventModel>::empty()) is Some);
    } else {
        lemma_play_follows_run(target, events.drop_last());
        lemma_step_follows(
            target,
            play(target, events.drop_last()),
            run(target, events.drop_last()),
            events.last(),
        );
    }
}

/// After the root's opening and members that do not have the target key,
/// nothing was written and the extraction stands directly inside the
/// root.
pub proof fn lemma_play_root_members(target: Seq<char>, before: Seq<Member>)
    requires
        well_formed(before),
        without_key(before, target),
    ensures
        play(target, seq![EventModel::StartObject] + members_events(before)) == (Session {
            state: State { phase: PhaseModel::Root, partial: Seq::empty(), refused: false },
            records: Seq::empty(),
            output: Seq::empty(),
        }),
{
    let head = seq![EventModel::StartObject] + members_events(before);
    lemma_root_members(target, before);
    assert(accepted(run(target, head))) by {
        assert(text_of(Seq::<EventModel>::empty()) is Some);
    }
    lemma_play_follows_run(target, head);
    assert(play(target, head).records =~= Seq::<Seq<EventModel>>::empty());
}

} // verus!
