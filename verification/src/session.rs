//! What an extraction makes of a sequence of events: the lines it writes
//! and how it ends.

use vstd::prelude::*;
use crate::error::ExtractError;
use crate::error::StreamError;
use crate::event::EventModel;
use crate::navigator::transition;
use crate::navigator::Action;
use crate::navigator::PhaseModel;
use crate::record::line_of;
use crate::record::text_of;

verus! {

/// The state of an extraction between two events.
pub struct State {
    /// Where the navigator stands.
    pub phase: PhaseModel,
    /// The events of the record in flight that were written so far.
    pub partial: Seq<EventModel>,
    /// The serializer has refused an event.
    pub refused: bool,
}

/// What the extraction answers to one event.
pub enum Reply {
    /// Nothing is to be written yet.
    Pending,
    /// A record is complete: its line.
    Line(Seq<u8>),
    /// The extraction has ended with success.
    Finished,
    /// The extraction has failed.
    Failed(ExtractError),
}

/// The state before the first event.
pub open spec fn initial() -> State {
    State { phase: PhaseModel::Start, partial: Seq::empty(), refused: false }
}

/// The state after a refusal.
pub open spec fn refusal(phase: PhaseModel) -> (State, Reply) {
    (
        State { phase, partial: Seq::empty(), refused: true },
        Reply::Failed(ExtractError::Stream(StreamError::Serialize)),
    )
}

/// The extraction's rule: the navigator says what the event is; an event
/// of a record goes to the serializer, and the record's last event gives
/// its line. A refusal by the serializer ends the extraction.
#[verifier::opaque]
pub open spec fn respond(target: Seq<char>, state: State, event: EventModel) -> (State, Reply) {
    if state.refused {
        (state, Reply::Failed(ExtractError::Stream(StreamError::Serialize)))
    } else {
        let (phase, action) = transition(target, state.phase, event);
        let grown = state.partial.push(event);
        match action {
            Action::Skip => (State { phase, partial: state.partial, refused: false }, Reply::Pending),
            Action::Forward => {
                if text_of(grown) is Some {
                    (State { phase, partial: grown, refused: false }, Reply::Pending)
                } else {
                    refusal(phase)
                }
            },
            Action::ForwardAndFlush => {
                if text_of(grown) is Some {
                    (
                        State { phase, partial: Seq::empty(), refused: false },
                        Reply::Line(line_of(grown)),
                    )
                } else {
                    refusal(phase)
                }
            },
            Action::Finish => (
                State { phase, partial: state.partial, refused: false },
                Reply::Finished,
            ),
            Action::Fail(error) => (
                State { phase, partial: state.partial, refused: false },
                Reply::Failed(ExtractError::Structure(error)),
            ),
        }
    }
}

/// How the extraction has ended, if it has.
pub open spec fn verdict(state: State) -> Option<Result<(), ExtractError>> {
    if state.refused {
        Some(Err(ExtractError::Stream(StreamError::Serialize)))
    } else {
        match state.phase {
            PhaseModel::Done => Some(Ok(())),
            PhaseModel::Failed(error) => Some(Err(ExtractError::Structure(error))),
            _ => None,
        }
    }
}

/// An extraction with all that it has written.
pub struct Session {
    pub state: State,
    /// The events of each record whose line was written, in the order in
    /// which the records were read.
    pub records: Seq<Seq<EventModel>>,
    /// The lines written so far, one after the other.
    pub output: Seq<u8>,
}

/// The session before the first event.
pub open spec fn opening() -> Session {
    Session { state: initial(), records: Seq::empty(), output: Seq::empty() }
}

/// The session after one more event.
pub open spec fn play_event(target: Seq<char>, session: Session, event: EventModel) -> Session {
    let (state, reply) = respond(target, session.state, event);
    match reply {
        Reply::Line(line) => Session {
            state,
            records: session.records.push(session.state.partial.push(event)),
            output: session.output + line,
        },
        _ => Session { state, records: session.records, output: session.output },
    }
}

/// The session after `events`, taken up at `session`.
pub open spec fn play_from(target: Seq<char>, session: Session, events: Seq<EventModel>) -> Session
    decreases events.len(),
{
    if events.len() == 0 {
        session
    } else {
        play_event(target, play_from(target, session, events.drop_last()), events.last())
    }
}

/// The session of a whole sequence of events.
pub open spec fn play(target: Seq<char>, events: Seq<EventModel>) -> Session {
    play_from(target, opening(), events)
}

/// Events are taken one after the other.
pub proof fn lemma_play_push(target: Seq<char>, events: Seq<EventModel>, event: EventModel)
    ensures
        play(target, events.push(event)) == play_event(target, play(target, events), event),
{
    assert(events.push(event).drop_last() =~= events);
}

/// Once an extraction has ended, no event changes it.
pub proof fn lemma_respond_settled(target: Seq<char>, state: State, event: EventModel)
    requires
        verdict(state) is Some,
    ensures
        respond(target, state, event).0 == state,
        !(respond(target, state, event).1 is Line),
        !(respond(target, state, event).1 is Pending),
{
    reveal(respond);
}

/// The answer to an event says whether the extraction goes on: it does
/// after `Pending` and `Line`, and it has ended as the answer says after
/// `Finished` and `Failed`.
pub proof fn lemma_respond_verdict(target: Seq<char>, state: State, event: EventModel)
    requires
        verdict(state) is None,
    ensures
        verdict(respond(target, state, event).0) == match respond(target, state, event).1 {
            Reply::Pending => None,
            Reply::Line(_) => None,
            Reply::Finished => Some(Ok(())),
            Reply::Failed(error) => Some(Err(error)),
        },
{
    reveal(respond);
}

/// Once a session has ended, no events change it.
pub proof fn lemma_play_settled(target: Seq<char>, session: Session, events: Seq<EventModel>)
    requires
        verdict(session.state) is Some,
    ensures
        play_from(target, session, events) == session,
    decreases events.len(),
{
    if events.len() > 0 {
        lemma_play_settled(target, session, events.drop_last());
        lemma_respond_settled(target, session.state, events.last());
    }
}

/// Reading two sequences in turn is reading the two as one.
pub proof fn lemma_play_append(
    target: Seq<char>,
    session: Session,
    first: Seq<EventModel>,
    second: Seq<EventModel>,
)
    ensures
        play_from(target, session, first + second) == play_from(
            target,
            play_from(target, session, first),
            second,
        ),
    decreases second.len(),
{
    if second.len() == 0 {
        assert(first + second =~= first);
    } else {
        lemma_play_append(target, session, first, second.drop_last());
        assert((first + second).drop_last() =~= first + second.drop_last());
        assert((first + second).last() == second.last());
    }
}

/// A session that has ended within the first `n` events is the session of
/// all of them.
pub proof fn lemma_play_prefix(target: Seq<char>, events: Seq<EventModel>, n: int)
    requires
        0 <= n <= events.len(),
        verdict(play(target, events.take(n)).state) is Some,
    ensures
        play(target, events) == play(target, events.take(n)),
{
    assert(events =~= events.take(n) + events.skip(n));
    lemma_play_append(target, opening(), events.take(n), events.skip(n));
    lemma_play_settled(target, play(target, events.take(n)), events.skip(n));
}

/// The end of the stream ends every extraction.
pub proof fn lemma_eof_settles(target: Seq<char>, state: State)
    ensures
        verdict(respond(target, state, EventModel::Eof).0) is Some,
{
    reveal(respond);
}

/// One event makes the value in flight at most one container deeper.
pub proof fn lemma_respond_depth(target: Seq<char>, state: State, event: EventModel)
    ensures
        respond(target, state, event).0.phase.depth() <= state.phase.depth() + 1,
        state.phase == PhaseModel::Start ==> respond(target, state, event).0.phase.depth() == 0,
{
    reveal(respond);
}

} // verus!
