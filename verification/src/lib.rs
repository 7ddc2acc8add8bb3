//! Streaming extraction of the records of one nested JSON object.
//!
//! A document is read as a sequence of events. Its root is an object; one
//! of the root's keys, the target key, holds the collection: an object
//! whose members are the records. The members of the root before the
//! target key are skipped by counting depth, without building them, and
//! every record is written as one line of compact JSON, as soon as its
//! last event was read.
//!
//! - [`event`]: the events.
//! - [`scan`]: the counter that follows one value through its events.
//! - [`navigator`]: where the cursor stands and what each event means.
//! - [`record`]: the buffer in which one record becomes a line.
//! - [`extractor`]: navigator and buffer together, event by event.
//! - [`extract`]: whole documents, from events or from text.
//! - [`session`], [`trace`], [`value`], [`document`], [`follow`]: what an
//!   extraction is, as mathematics.
//! - [`laws`]: what holds of every extraction.
//! - [`sink`], [`source`]: the serializer and the tokenizer of
//!   `json_event_parser`, and what is taken on trust of them.

pub mod document;
pub mod error;
pub mod event;
pub mod extract;
pub mod extractor;
pub mod follow;
pub mod laws;
pub mod navigator;
pub mod record;
pub mod scan;
pub mod session;
pub mod sink;
pub mod source;
pub mod trace;
pub mod value;
