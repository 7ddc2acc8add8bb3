//! Documents as sequences of events, and how the navigator walks through
//! their members.

use vstd::prelude::*;
use crate::event::EventModel;
use crate::navigator::PhaseModel;
use crate::trace::at;
use crate::trace::lemma_record_value;
use crate::trace::lemma_run_append;
use crate::trace::lemma_run_push;
use crate::trace::lemma_skip_value;
use crate::trace::run;
use crate::trace::run_from;
use crate::trace::start;
use crate::trace::Trace;
use crate::value::is_value;

verus! {

/// One member of an object: its key and the events of its value.
pub struct Member {
    pub key: Seq<char>,
    pub value: Seq<EventModel>,
}

/// The events of one member: the key, then the value.
pub open spec fn member_events(member: Member) -> Seq<EventModel> {
    seq![EventModel::ObjectKey(member.key)] + member.value
}

/// The events of members that follow each other.
pub open spec fn members_events(members: Seq<Member>) -> Seq<EventModel>
    decreases members.len(),
{
    if members.len() == 0 {
        Seq::empty()
    } else {
        members_events(members.drop_last()) + member_events(members.last())
    }
}

/// The values of the members, in their order.
pub open spec fn values(members: Seq<Member>) -> Seq<Seq<EventModel>> {
    Seq::new(members.len(), |i: int| members[i].value)
}

/// Every member's value is one balanced value.
pub open spec fn well_formed(members: Seq<Member>) -> bool {
    forall|i: int| 0 <= i < members.len() ==> is_value((#[trigger] members[i]).value)
}

/// No member has the key `target`.
pub open spec fn without_key(members: Seq<Member>, target: Seq<char>) -> bool {
    forall|i: int| 0 <= i < members.len() ==> (#[trigger] members[i]).key != target
}

/// The events of a document up to the closing of the target collection:
/// the root is opened, the members `before` come first, then the target
/// key with the collection of `records`.
pub open spec fn document(before: Seq<Member>, target: Seq<char>, records: Seq<Member>) -> Seq<
    EventModel,
> {
    seq![EventModel::StartObject] + members_events(before) + seq![
        EventModel::ObjectKey(target),
        EventModel::StartObject,
    ] + members_events(records) + seq![EventModel::EndObject]
}

/// Members of the root that do not have the target key are read and
/// change nothing.
pub proof fn lemma_skip_members(target: Seq<char>, trace: Trace, members: Seq<Member>)
    requires
        trace.phase == PhaseModel::Root,
        well_formed(members),
        without_key(members, target),
    ensures
        run_from(target, trace, members_events(members)) == trace,
    decreases members.len(),
{
    if members.len() > 0 {
        let earlier = members.drop_last();
        let last = members.last();
        assert(well_formed(earlier)) by {
            assert forall|i: int| 0 <= i < earlier.len() implies is_value(
                (#[trigger] earlier[i]).value,
            ) by {
                assert(earlier[i] == members[i]);
            }
        }
        assert(without_key(earlier, target)) by {
            assert forall|i: int| 0 <= i < earlier.len() implies (#[trigger] earlier[i]).key
                != target by {
                assert(earlier[i] == members[i]);
            }
        }
        lemma_skip_members(target, trace, earlier);
        let key = seq![EventModel::ObjectKey(last.key)];
        lemma_run_append(target, trace, members_events(earlier), member_events(last));
        lemma_run_append(target, trace, key, last.value);
        assert(key =~= Seq::<EventModel>::empty().push(EventModel::ObjectKey(last.key)));
        lemma_run_push(target, trace, Seq::empty(), EventModel::ObjectKey(last.key));
        assert(is_value(members[members.len() - 1].value));
        assert(members[members.len() - 1].key != target);
        lemma_skip_value(target, at(trace, PhaseModel::Skipping(0)), last.value);
    }
}

/// The members of the collection are handed on one by one, each with the
/// events of its value, in the order in which they were read.
pub proof fn lemma_collect_members(target: Seq<char>, trace: Trace, members: Seq<Member>)
    requires
        trace.phase == PhaseModel::Collection,
        trace.partial.len() == 0,
        well_formed(members),
    ensures
        run_from(target, trace, members_events(members)) == (Trace {
            phase: PhaseModel::Collection,
            records: trace.records + values(members),
            partial: Seq::empty(),
        }),
    decreases members.len(),
{
    if members.len() == 0 {
        assert(trace.records + values(members) =~= trace.records);
        assert(trace.partial =~= Seq::<EventModel>::empty());
    } else {
        let earlier = members.drop_last();
        let last = members.last();
        assert(well_formed(earlier)) by {
            assert forall|i: int| 0 <= i < earlier.len() implies is_value(
                (#[trigger] earlier[i]).value,
            ) by {
                assert(earlier[i] == members[i]);
            }
        }
        lemma_collect_members(target, trace, earlier);
        let middle = run_from(target, trace, members_events(earlier));
        let key = seq![EventModel::ObjectKey(last.key)];
        lemma_run_append(target, trace, members_events(earlier), member_events(last));
        lemma_run_append(target, middle, key, last.value);
        assert(key =~= Seq::<EventModel>::empty().push(EventModel::ObjectKey(last.key)));
        lemma_run_push(target, middle, Seq::empty(), EventModel::ObjectKey(last.key));
        assert(is_value(members[members.len() - 1].value));
        lemma_record_value(target, at(middle, PhaseModel::Record(0)), last.value);
        assert((trace.records + values(earlier)).push(last.value) =~= trace.records + values(
            members,
        ));
    }
}

/// The navigation of the root's opening and of members that do not have
/// the target key: the navigator stands in the root, with nothing handed
/// on.
pub proof fn lemma_root_members(target: Seq<char>, before: Seq<Member>)
    requires
        well_formed(before),
        without_key(before, target),
    ensures
        run(target, seq![EventModel::StartObject] + members_events(before)) == at(
            start(),
            PhaseModel::Root,
        ),
{
    let open = seq![EventModel::StartObject];
    assert(open =~= Seq::<EventModel>::empty().push(EventModel::StartObject));
    lemma_run_push(target, start(), Seq::empty(), EventModel::StartObject);
    lemma_run_append(target, start(), open, members_events(before));
    lemma_skip_members(target, at(start(), PhaseModel::Root), before);
}

/// The navigation of a document up to the closing of its collection: the
/// records are the values of the collection's members, in the members'
/// order, and the navigator awaits the end of the stream.
pub proof fn lemma_run_document(before: Seq<Member>, target: Seq<char>, records: Seq<Member>)
    requires
        well_formed(before),
        without_key(before, target),
        well_formed(records),
    ensures
        run(target, document(before, target, records)) == (Trace {
            phase: PhaseModel::AwaitEnd,
            records: values(records),
            partial: Seq::empty(),
        }),
{
    let head = seq![EventModel::StartObject] + members_events(before);
    let entry = seq![EventModel::ObjectKey(target), EventModel::StartObject];
    let close = seq![EventModel::EndObject];
    lemma_root_members(target, before);
    let root = at(start(), PhaseModel::Root);
    assert(entry =~= Seq::<EventModel>::empty().push(EventModel::ObjectKey(target)).push(
        EventModel::StartObject,
    ));
    lemma_run_push(target, root, Seq::empty(), EventModel::ObjectKey(target));
    lemma_run_push(
        target,
        root,
        Seq::<EventModel>::empty().push(EventModel::ObjectKey(target)),
        EventModel::StartObject,
    );
    let inside = at(start(), PhaseModel::Collection);
    assert(run_from(target, root, entry) == inside);
    lemma_run_append(target, start(), head, entry);
    lemma_collect_members(target, inside, records);
    lemma_run_append(target, start(), head + entry, members_events(records));
    let full = Trace {
        phase: PhaseModel::Collection,
        records: values(records),
        partial: Seq::empty(),
    };
    assert(inside.records + values(records) =~= values(records));
    assert(close =~= Seq::<EventModel>::empty().push(EventModel::EndObject));
    lemma_run_push(target, full, Seq::empty(), EventModel::EndObject);
    lemma_run_append(target, start(), head + entry + members_events(records), close);
}

} // verus!
