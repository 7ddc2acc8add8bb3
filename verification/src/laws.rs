//! What holds of every extraction.

use vstd::prelude::*;
use crate::document::document;
use crate::document::lemma_run_document;
use crate::document::members_events;
use crate::document::values;
use crate::document::well_formed;
use crate::document::without_key;
use crate::document::Member;
use crate::error::ExtractError;
use crate::error::StructureError;
use crate::event::EventModel;
use crate::follow::accepted;
use crate::follow::lemma_play_follows_run;
use crate::follow::lemma_play_root_members;
use crate::navigator::PhaseModel;
use crate::record::line_of;
use crate::record::lines_of;
use crate::record::text_of;
use crate::session::lemma_play_append;
use crate::session::lemma_play_prefix;
use crate::session::lemma_play_push;
use crate::session::opening;
use crate::session::play;
use crate::session::respond;
use crate::session::verdict;
use crate::trace::lemma_run_coherent;
use crate::trace::run;
use crate::value::is_value;
use crate::value::lemma_value_net_depth;
use crate::value::net_depth;

verus! {

/// All that an extraction writes are the lines of the records that it
/// has completed, one after the other in the order in which the records
/// were read.
pub proof fn law_output_is_lines(target: Seq<char>, events: Seq<EventModel>)
    ensures
        play(target, events).output == lines_of(play(target, events).records),
{
    lemma_play_follows_run(target, events);
}

/// The line of the record at `i` stands after the lines of the records
/// before it and before the lines of the records after it.
pub proof fn law_lines_in_order(records: Seq<Seq<EventModel>>, i: int)
    requires
        0 <= i < records.len(),
    ensures
        lines_of(records) == lines_of(records.take(i)) + line_of(records[i]) + lines_of(
            records.skip(i + 1),
        ),
    decreases records.len(),
{
    let earlier = records.drop_last();
    if i == records.len() - 1 {
        assert(records.take(i) =~= earlier);
        assert(records.skip(i + 1) =~= Seq::<Seq<EventModel>>::empty());
        assert(lines_of(records) =~= lines_of(earlier) + line_of(records[i]) + lines_of(
            records.skip(i + 1),
        ));
    } else {
        law_lines_in_order(earlier, i);
        assert(earlier.take(i) =~= records.take(i));
        assert(records.skip(i + 1).drop_last() =~= earlier.skip(i + 1));
        assert(records.skip(i + 1).last() == records.last());
        assert(lines_of(records) =~= lines_of(records.take(i)) + line_of(records[i]) + lines_of(
            records.skip(i + 1),
        ));
    }
}

/// Where the root holds the target key once, after members with other
/// keys, and the key's value is an object whose members' values the
/// serializer accepts, every member becomes one line, whatever follows
/// the collection: the records written are the members' values, as many
/// as there are members and in the members' order, and the output is
/// their lines. The extraction succeeds where the end of the stream
/// follows the collection, and fails for trailing data where anything
/// else does.
pub proof fn law_one_line_per_record(
    before: Seq<Member>,
    target: Seq<char>,
    records: Seq<Member>,
    rest: Seq<EventModel>,
)
    requires
        well_formed(before),
        without_key(before, target),
        well_formed(records),
        forall|i: int| 0 <= i < records.len() ==> text_of((#[trigger] records[i]).value) is Some,
    ensures
        play(target, document(before, target, records) + rest).records == values(records),
        play(target, document(before, target, records) + rest).output == lines_of(values(records)),
        verdict(play(target, document(before, target, records) + rest).state) == if rest.len() == 0 {
            None
        } else if rest[0] is Eof {
            Some(Ok::<(), ExtractError>(()))
        } else {
            Some(
                Err::<(), ExtractError>(
                    ExtractError::Structure(StructureError::TrailingData(rest[0].kind())),
                ),
            )
        },
{
    reveal(respond);
    let events = document(before, target, records);
    lemma_run_document(before, target, records);
    assert(accepted(run(target, events))) by {
        assert(text_of(Seq::<EventModel>::empty()) is Some);
        assert forall|i: int| 0 <= i < values(records).len() implies text_of(
            #[trigger] values(records)[i],
        ) is Some by {
            assert(values(records)[i] == records[i].value);
        }
    }
    lemma_play_follows_run(target, events);
    if rest.len() == 0 {
        assert(events + rest =~= events);
    } else {
        let next = events.push(rest[0]);
        lemma_play_push(target, events, rest[0]);
        assert(events + rest =~= next + rest.skip(1));
        assert((events + rest).take(next.len() as int) =~= next);
        lemma_play_prefix(target, events + rest, next.len() as int);
    }
}

/// While a record is in flight, the depth is the number of containers
/// that its events so far have opened and not closed, and at least one
/// is open once the record has begun.
pub proof fn law_depth_counts_open_containers(target: Seq<char>, events: Seq<EventModel>)
    requires
        play(target, events).state.phase is Record,
        !play(target, events).state.refused,
    ensures
        play(target, events).state.phase.depth() == net_depth(play(target, events).state.partial),
        play(target, events).state.partial.len() > 0 ==> play(target, events).state.phase.depth()
            >= 1,
{
    lemma_play_follows_run(target, events);
    lemma_run_coherent(target, events);
    let partial = run(target, events).partial;
    if partial.len() > 0 {
        assert(partial.take(partial.len() as int) =~= partial);
    }
}

/// Every record that is written is one balanced value, however deep it
/// is nested: as many of its events open a container as close one.
pub proof fn law_written_records_are_balanced(target: Seq<char>, events: Seq<EventModel>, i: int)
    requires
        0 <= i < play(target, events).records.len(),
    ensures
        is_value(play(target, events).records[i]),
        net_depth(play(target, events).records[i]) == 0,
{
    lemma_play_follows_run(target, events);
    lemma_run_coherent(target, events);
    let written = play(target, events).records;
    let handed = run(target, events).records;
    assert(written[i] == handed[i]) by {
        if play(target, events).state.refused {
            assert(handed.take(written.len() as int)[i] == handed[i]);
        }
    }
    lemma_value_net_depth(handed[i]);
}

/// Members of the root that come before the target key, however deep
/// their values are nested, are read and write nothing: the extraction
/// of what follows them is that of the document without them.
pub proof fn law_skipped_members_write_nothing(
    target: Seq<char>,
    before: Seq<Member>,
    rest: Seq<EventModel>,
)
    requires
        well_formed(before),
        without_key(before, target),
    ensures
        play(target, seq![EventModel::StartObject] + members_events(before) + rest) == play(
            target,
            seq![EventModel::StartObject] + rest,
        ),
{
    let open = seq![EventModel::StartObject];
    lemma_play_root_members(target, before);
    lemma_play_root_members(target, Seq::empty());
    assert(open + members_events(Seq::<Member>::empty()) =~= open);
    lemma_play_append(target, opening(), open + members_events(before), rest);
    lemma_play_append(target, opening(), open, rest);
}

/// A root that closes, or a stream that ends, before the target key was
/// seen: the extraction fails for the missing target key and has written
/// nothing.
pub proof fn law_missing_target_key(target: Seq<char>, before: Seq<Member>, end: EventModel)
    requires
        well_formed(before),
        without_key(before, target),
        end is EndObject || end is Eof,
    ensures
        verdict(
            play(target, (seq![EventModel::StartObject] + members_events(before)).push(end)).state,
        ) == Some(
            Err::<(), ExtractError>(ExtractError::Structure(StructureError::MissingTargetKey)),
        ),
        play(target, (seq![EventModel::StartObject] + members_events(before)).push(end)).output
            == Seq::<u8>::empty(),
{
    reveal(respond);
    let head = seq![EventModel::StartObject] + members_events(before);
    lemma_play_root_members(target, before);
    lemma_play_push(target, head, end);
}

/// A target key whose value does not begin as an object: the extraction
/// fails for it and has written nothing.
pub proof fn law_target_must_be_object(target: Seq<char>, before: Seq<Member>, event: EventModel)
    requires
        well_formed(before),
        without_key(before, target),
        !(event is StartObject),
    ensures
        verdict(
            play(
                target,
                (seq![EventModel::StartObject] + members_events(before)).push(
                    EventModel::ObjectKey(target),
                ).push(event),
            ).state,
        ) == Some(
            Err::<(), ExtractError>(
                ExtractError::Structure(
                    StructureError::ExpectedObjectAfterTargetKey(event.kind()),
                ),
            ),
        ),
        play(
            target,
            (seq![EventModel::StartObject] + members_events(before)).push(
                EventModel::ObjectKey(target),
            ).push(event),
        ).output == Seq::<u8>::empty(),
{
    reveal(respond);
    let head = seq![EventModel::StartObject] + members_events(before);
    lemma_play_root_members(target, before);
    lemma_play_push(target, head, EventModel::ObjectKey(target));
    lemma_play_push(target, head.push(EventModel::ObjectKey(target)), event);
}

/// A stream that ends inside a record: the extraction fails for the
/// truncated record, and what was written before stays as it is.
pub proof fn law_truncated_record(target: Seq<char>, events: Seq<EventModel>)
    requires
        play(target, events).state.phase is Record,
        !play(target, events).state.refused,
    ensures
        verdict(play(target, events.push(EventModel::Eof)).state) == Some(
            Err::<(), ExtractError>(ExtractError::Structure(StructureError::TruncatedRecord)),
        ),
        play(target, events.push(EventModel::Eof)).output == play(target, events).output,
{
    reveal(respond);
    lemma_play_push(target, events, EventModel::Eof);
}

/// After the collection has closed, the end of the stream ends the
/// extraction with success and any other event is trailing data; what was
/// written stays as it is.
pub proof fn law_after_collection(target: Seq<char>, events: Seq<EventModel>, event: EventModel)
    requires
        play(target, events).state.phase == PhaseModel::AwaitEnd,
        !play(target, events).state.refused,
    ensures
        verdict(play(target, events.push(event)).state) == Some(
            if event is Eof {
                Ok::<(), ExtractError>(())
            } else {
                Err::<(), ExtractError>(
                    ExtractError::Structure(StructureError::TrailingData(event.kind())),
                )
            },
        ),
        play(target, events.push(event)).output == play(target, events).output,
{
    reveal(respond);
    lemma_play_push(target, events, event);
}

} // verus!
