//! The extraction itself: events in, lines out.

use vstd::prelude::*;
use crate::error::ExtractError;
use crate::error::StreamError;
use crate::event::Event;
use crate::navigator::Action;
use crate::navigator::Navigator;
use crate::navigator::Phase;
use crate::record::lemma_text_push;
use crate::record::RecordWriter;
use crate::session::initial;
use crate::session::respond;
use crate::session::verdict;
use crate::session::Reply;
use crate::session::State;

verus! {

/// What `Extractor::feed` hands back for an event that it took.
#[derive(Debug, PartialEq, Eq)]
pub enum Step {
    /// Nothing is to be written yet.
    Pending,
    /// A record is complete: its line, with the byte that ends it.
    Line(Vec<u8>),
    /// The collection and the stream have ended.
    Finished,
}

/// What an extractor is: the key it looks for and the state it is in.
pub struct ExtractorModel {
    pub target: Seq<char>,
    pub state: State,
}

/// The answer that a result of `Extractor::feed` stands for.
pub open spec fn reply_of(result: Result<Step, ExtractError>) -> Reply {
    match result {
        Ok(Step::Pending) => Reply::Pending,
        Ok(Step::Line(line)) => Reply::Line(line@),
        Ok(Step::Finished) => Reply::Finished,
        Err(error) => Reply::Failed(error),
    }
}

/// An extraction in progress: the navigator and the buffer of the record
/// in flight.
pub struct Extractor {
    navigator: Navigator,
    writer: RecordWriter,
}

impl View for Extractor {
    type V = ExtractorModel;

    closed spec fn view(&self) -> ExtractorModel {
        ExtractorModel {
            target: self.navigator@.target,
            state: State {
                phase: self.navigator@.phase,
                partial: self.writer.events(),
                refused: self.writer.refused(),
            },
        }
    }
}

impl Extractor {
    /// The buffer holds the text of the record in flight.
    pub closed spec fn wf(&self) -> bool {
        self.writer.wf()
    }

    /// An extractor for the collection under `target_key`, before the
    /// first event.
    pub fn new(target_key: &str) -> (r: Self)
        ensures
            r.wf(),
            r@.target == target_key@,
            r@.state == initial(),
    {
        Extractor { navigator: Navigator::new(target_key), writer: RecordWriter::new() }
    }

    /// The key under which the collection is looked for.
    pub fn target_key(&self) -> (r: &str)
        ensures
            r@ == self@.target,
    {
        self.navigator.target_key()
    }

    /// The phase the navigator is in.
    pub fn phase(&self) -> (r: Phase)
        ensures
            r == self@.state.phase.kind(),
    {
        self.navigator.phase()
    }

    /// The depth of the value in flight, zero where there is none.
    pub fn depth(&self) -> (r: u64)
        ensures
            r == self@.state.phase.depth(),
    {
        self.navigator.depth()
    }

    /// How the extraction has ended, or `None` while it goes on.
    pub fn outcome(&self) -> (r: Option<Result<(), ExtractError>>)
        ensures
            r == verdict(self@.state),
    {
        if self.writer.is_refused() {
            Some(Err(ExtractError::Stream(StreamError::Serialize)))
        } else {
            match self.navigator.phase() {
                Phase::Done => Some(Ok(())),
                Phase::Failed(error) => Some(Err(ExtractError::Structure(error))),
                _ => None,
            }
        }
    }

    /// Takes the next event of the document and answers as `respond`
    /// says: nothing yet, the line of a record that the event completes,
    /// the end, or the error that ends the extraction.
    pub fn feed(&mut self, event: &Event) -> (r: Result<Step, ExtractError>)
        requires
            old(self).wf(),
            old(self)@.state.phase.depth() < u64::MAX,
        ensures
            final(self).wf(),
            final(self)@.target == old(self)@.target,
            final(self)@.state == respond(old(self)@.target, old(self)@.state, event@).0,
            reply_of(r) == respond(old(self)@.target, old(self)@.state, event@).1,
    {
        proof {
            reveal(respond);
        }
        if self.writer.is_refused() {
            return Err(ExtractError::Stream(StreamError::Serialize));
        }
        proof {
            self.writer.lemma_wf();
            lemma_text_push(self.writer.events(), event@);
        }
        match self.navigator.step(event) {
            Action::Skip => Ok(Step::Pending),
            Action::Forward => {
                match self.writer.push(event) {
                    Ok(_) => {
                        proof {
                            self.writer.lemma_wf();
                        }
                        Ok(Step::Pending)
                    },
                    Err(error) => Err(ExtractError::Stream(error)),
                }
            },
            Action::ForwardAndFlush => {
                match self.writer.push(event) {
                    Ok(_) => {
                        proof {
                            self.writer.lemma_wf();
                        }
                        Ok(Step::Line(self.writer.take_line()))
                    },
                    Err(error) => Err(ExtractError::Stream(error)),
                }
            },
            Action::Finish => Ok(Step::Finished),
            Action::Fail(error) => Err(ExtractError::Structure(error)),
        }
    }
}

} // verus!
