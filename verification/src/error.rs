//! The ways in which an extraction fails.

use vstd::prelude::*;
use crate::event::EventKind;

verus! {

/// The sequence of events does not have the shape of a document that
/// holds the target collection. Where an event stood in place of what
/// was expected, the error names its kind.
#[derive(Clone, Copy, Debug, PartialEq, Eq, Structural)]
pub enum StructureError {
    /// The first event does not open an object.
    ExpectedTopLevelObject(EventKind),
    /// The root ended, or the stream did, before the target key was seen.
    MissingTargetKey,
    /// The event after the target key does not open an object.
    ExpectedObjectAfterTargetKey(EventKind),
    /// An event that cannot stand where it was read: a closing event with
    /// nothing open, or anything but a key or the closing of the
    /// collection directly inside it.
    UnexpectedEvent(EventKind),
    /// The stream ended inside a value.
    TruncatedRecord,
    /// Something other than the end of the stream follows the collection.
    TrailingData(EventKind),
}

/// The input could not be tokenized, or the serializer refused an event.
#[derive(Clone, Copy, Debug, PartialEq, Eq, Structural)]
pub enum StreamError {
    /// The tokenizer reported malformed JSON.
    Syntax,
    /// The serializer refused an event of a record.
    Serialize,
}

/// Why an extraction stopped without success.
#[derive(Clone, Copy, Debug, PartialEq, Eq, Structural)]
pub enum ExtractError {
    /// The events do not have the expected shape.
    Structure(StructureError),
    /// The tokenizer or the serializer failed.
    Stream(StreamError),
}

impl EventKind {
    /// The name of the kind.
    pub open spec fn text(self) -> Seq<char> {
        match self {
            EventKind::String => "string"@,
            EventKind::Number => "number"@,
            EventKind::Boolean => "boolean"@,
            EventKind::Null => "null"@,
            EventKind::StartArray => "start of array"@,
            EventKind::EndArray => "end of array"@,
            EventKind::StartObject => "start of object"@,
            EventKind::EndObject => "end of object"@,
            EventKind::ObjectKey => "object key"@,
            EventKind::Eof => "end of stream"@,
        }
    }

    /// The name of the kind, for a description.
    pub fn name(&self) -> (r: String)
        ensures
            r@ == self.text(),
    {
        match self {
            EventKind::String => "string".to_string(),
            EventKind::Number => "number".to_string(),
            EventKind::Boolean => "boolean".to_string(),
            EventKind::Null => "null".to_string(),
            EventKind::StartArray => "start of array".to_string(),
            EventKind::EndArray => "end of array".to_string(),
            EventKind::StartObject => "start of object".to_string(),
            EventKind::EndObject => "end of object".to_string(),
            EventKind::ObjectKey => "object key".to_string(),
            EventKind::Eof => "end of stream".to_string(),
        }
    }
}

impl StructureError {
    /// The description of the expectation that failed.
    pub open spec fn text(self) -> Seq<char> {
        match self {
            StructureError::ExpectedTopLevelObject(_) => "expected top-level object"@,
            StructureError::MissingTargetKey => "target key not found"@,
            StructureError::ExpectedObjectAfterTargetKey(_) => "expected object after target key"@,
            StructureError::UnexpectedEvent(_) => "unexpected event"@,
            StructureError::TruncatedRecord => "truncated record"@,
            StructureError::TrailingData(_) => "trailing data after collection end"@,
        }
    }

    /// The kind of the event that stood in place of what was expected.
    pub open spec fn offending(self) -> Option<EventKind> {
        match self {
            StructureError::ExpectedTopLevelObject(kind) => Some(kind),
            StructureError::MissingTargetKey => None,
            StructureError::ExpectedObjectAfterTargetKey(kind) => Some(kind),
            StructureError::UnexpectedEvent(kind) => Some(kind),
            StructureError::TruncatedRecord => None,
            StructureError::TrailingData(kind) => Some(kind),
        }
    }

    /// A description that names the expectation that failed.
    pub fn message(&self) -> (r: String)
        ensures
            r@ == self.text(),
    {
        match self {
            StructureError::ExpectedTopLevelObject(_) => "expected top-level object".to_string(),
            StructureError::MissingTargetKey => "target key not found".to_string(),
            StructureError::ExpectedObjectAfterTargetKey(_) => {
                "expected object after target key".to_string()
            },
            StructureError::UnexpectedEvent(_) => "unexpected event".to_string(),
            StructureError::TruncatedRecord => "truncated record".to_string(),
            StructureError::TrailingData(_) => "trailing data after collection end".to_string(),
        }
    }

    /// The kind of the event that stood in place of what was expected,
    /// where the error is about one event.
    pub fn found(&self) -> (r: Option<EventKind>)
        ensures
            r == self.offending(),
    {
        match self {
            StructureError::ExpectedTopLevelObject(kind) => Some(*kind),
            StructureError::MissingTargetKey => None,
            StructureError::ExpectedObjectAfterTargetKey(kind) => Some(*kind),
            StructureError::UnexpectedEvent(kind) => Some(*kind),
            StructureError::TruncatedRecord => None,
            StructureError::TrailingData(kind) => Some(*kind),
        }
    }
}

impl StreamError {
    /// The description of the error.
    pub open spec fn text(self) -> Seq<char> {
        match self {
            StreamError::Syntax => "malformed JSON"@,
            StreamError::Serialize => "cannot write JSON"@,
        }
    }

    /// A description of what went wrong with the stream.
    pub fn message(&self) -> (r: String)
        ensures
            r@ == self.text(),
    {
        match self {
            StreamError::Syntax => "malformed JSON".to_string(),
            StreamError::Serialize => "cannot write JSON".to_string(),
        }
    }
}

impl ExtractError {
    /// The description of the error.
    pub open spec fn text(self) -> Seq<char> {
        match self {
            ExtractError::Structure(error) => error.text(),
            ExtractError::Stream(error) => error.text(),
        }
    }

    /// A description of the error, that of the kind it holds.
    pub fn message(&self) -> (r: String)
        ensures
            r@ == self.text(),
    {
        match self {
            ExtractError::Structure(error) => error.message(),
            ExtractError::Stream(error) => error.message(),
        }
    }
}

} // verus!
