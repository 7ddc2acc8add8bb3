//! The buffer in which one record becomes a line of text.

use vstd::prelude::*;
use crate::error::StreamError;
use crate::event::Event;
use crate::event::EventModel;
use crate::sink::emitted;
use crate::sink::journal;
use crate::sink::new_serializer;
use crate::sink::serialize_event;
use json_event_parser::LowLevelJsonSerializer;

verus! {

/// The byte that ends a line.
pub const LINE_END: u8 = 10;

/// The text that the serializer writes for `events`, handed to it one
/// after the other from the start; `None` where it refuses one of them.
pub open spec fn text_of(events: Seq<EventModel>) -> Option<Seq<u8>>
    decreases events.len(),
{
    if events.len() == 0 {
        Some(Seq::empty())
    } else {
        match (text_of(events.drop_last()), emitted(events.drop_last(), events.last())) {
            (Some(text), Some(bytes)) => Some(text + bytes),
            _ => None,
        }
    }
}

/// The line of a record: its text and the byte that ends the line.
pub open spec fn line_of(events: Seq<EventModel>) -> Seq<u8> {
    text_of(events)->0.push(LINE_END)
}

/// The lines of records, one after the other in the records' order.
pub open spec fn lines_of(records: Seq<Seq<EventModel>>) -> Seq<u8>
    decreases records.len(),
{
    if records.len() == 0 {
        Seq::empty()
    } else {
        lines_of(records.drop_last()) + line_of(records.last())
    }
}

/// The text after one more event.
pub proof fn lemma_text_push(events: Seq<EventModel>, event: EventModel)
    ensures
        text_of(events.push(event)) == match (text_of(events), emitted(events, event)) {
            (Some(text), Some(bytes)) => Some(text + bytes),
            _ => None,
        },
{
    assert(events.push(event).drop_last() =~= events);
}

/// The buffer of the record in flight: a serializer and the text it has
/// written.
pub struct RecordWriter {
    serializer: LowLevelJsonSerializer,
    buffer: Vec<u8>,
    refused: bool,
}

impl RecordWriter {
    /// The events of the record that were written so far; none after a
    /// refusal.
    pub closed spec fn events(&self) -> Seq<EventModel> {
        if self.refused {
            Seq::empty()
        } else {
            journal(self.serializer)
        }
    }

    /// Whether the serializer has refused an event of the record.
    pub closed spec fn refused(&self) -> bool {
        self.refused
    }

    /// The text that was written so far.
    pub closed spec fn text(&self) -> Seq<u8> {
        self.buffer@
    }

    /// The buffer holds the text of the events that were written.
    pub closed spec fn wf(&self) -> bool {
        !self.refused ==> text_of(journal(self.serializer)) == Some(self.buffer@)
    }

    /// What well-formedness says in terms of the writer's events.
    pub proof fn lemma_wf(&self)
        requires
            self.wf(),
            !self.refused(),
        ensures
            text_of(self.events()) == Some(self.text()),
    {
    }

    /// An empty buffer with a serializer that has written nothing.
    pub fn new() -> (r: Self)
        ensures
            r.wf(),
            !r.refused(),
            r.events() == Seq::<EventModel>::empty(),
    {
        RecordWriter { serializer: new_serializer(), buffer: Vec::new(), refused: false }
    }

    /// Whether the serializer has refused an event of the record.
    pub fn is_refused(&self) -> (r: bool)
        ensures
            r == self.refused(),
    {
        self.refused
    }

    /// Hands one event of the record to the serializer. The event is
    /// written where the serializer accepts it after the events before it;
    /// a refusal is final.
    pub fn push(&mut self, event: &Event) -> (r: Result<(), StreamError>)
        requires
            old(self).wf(),
        ensures
            final(self).wf(),
            if !old(self).refused() && emitted(old(self).events(), event@) is Some {
                &&& r is Ok
                &&& !final(self).refused()
                &&& final(self).events() == old(self).events().push(event@)
            } else {
                &&& r == Err::<(), StreamError>(StreamError::Serialize)
                &&& final(self).refused()
                &&& final(self).events() == Seq::<EventModel>::empty()
            },
    {
        if self.refused {
            return Err(StreamError::Serialize);
        }
        proof {
            lemma_text_push(journal(self.serializer), event@);
        }
        match serialize_event(&mut self.serializer, event, &mut self.buffer) {
            Ok(_) => Ok(()),
            Err(_) => {
                self.refused = true;
                Err(StreamError::Serialize)
            },
        }
    }

    /// Takes the record out as one line, its text followed by the byte
    /// that ends the line, and leaves the writer empty for the next
    /// record.
    pub fn take_line(&mut self) -> (line: Vec<u8>)
        requires
            old(self).wf(),
            !old(self).refused(),
        ensures
            final(self).wf(),
            !final(self).refused(),
            final(self).events() == Seq::<EventModel>::empty(),
            text_of(old(self).events()) is Some,
            line@ == line_of(old(self).events()),
    {
        let mut line: Vec<u8> = Vec::new();
        std::mem::swap(&mut line, &mut self.buffer);
        line.push(LINE_END);
        self.serializer = new_serializer();
        line
    }
}

} // verus!
