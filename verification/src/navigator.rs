//! The navigator: where in the document the cursor stands, and what each
//! event means there.

use vstd::prelude::*;
use crate::error::StructureError;
use crate::event::Event;
use crate::event::EventModel;
use crate::scan::scan_event;
use crate::scan::Scan;
use crate::scan::ScanModel;
use crate::scan::ValueScanner;

verus! {

/// What is to be done with the event that was just read.
#[derive(Clone, Copy, Debug, PartialEq, Eq, Structural)]
pub enum Action {
    /// The event is no part of any record.
    Skip,
    /// The event belongs to the record in flight, which goes on.
    Forward,
    /// The event is the last of the record in flight.
    ForwardAndFlush,
    /// The collection has ended and so has the stream.
    Finish,
    /// The events do not have the expected shape.
    Fail(StructureError),
}

/// Where the cursor stands, with the depth of the value in flight.
pub enum PhaseModel {
    /// Nothing was read yet.
    Start,
    /// Directly inside the root, the target key not seen yet.
    Root,
    /// Inside the value of another member of the root, that many
    /// containers deep; zero before the value's first event.
    Skipping(nat),
    /// The target key was read.
    AwaitCollection,
    /// Directly inside the target collection.
    Collection,
    /// Inside the value of a record, that many containers deep; zero
    /// before the value's first event.
    Record(nat),
    /// The collection has ended.
    AwaitEnd,
    /// The stream ended where it had to.
    Done,
    /// The extraction failed.
    Failed(StructureError),
}

impl PhaseModel {
    /// No event changes the phase any more.
    pub open spec fn terminal(self) -> bool {
        self is Done || self is Failed
    }

    /// The depth of the value in flight, zero where there is none.
    pub open spec fn depth(self) -> nat {
        match self {
            PhaseModel::Skipping(depth) => depth,
            PhaseModel::Record(depth) => depth,
            _ => 0,
        }
    }
}

/// How the scan of a value that `event` has ended without completing it
/// is reported.
pub open spec fn scan_failure(scan: ScanModel, event: EventModel) -> StructureError {
    if scan is Truncated {
        StructureError::TruncatedRecord
    } else {
        StructureError::UnexpectedEvent(event.kind())
    }
}

/// One event of the value in flight, by the one rule for both kinds of
/// value: the events of a record's value are forwarded, those of another
/// member's value are dropped.
pub open spec fn consume(depth: nat, event: EventModel, forwarding: bool) -> (PhaseModel, Action) {
    match scan_event(depth, event) {
        ScanModel::Inside(depth) => {
            if forwarding {
                (PhaseModel::Record(depth), Action::Forward)
            } else {
                (PhaseModel::Skipping(depth), Action::Skip)
            }
        },
        ScanModel::Complete => {
            if forwarding {
                (PhaseModel::Collection, Action::ForwardAndFlush)
            } else {
                (PhaseModel::Root, Action::Skip)
            }
        },
        failure => fail(scan_failure(failure, event)),
    }
}

/// The navigator's rule: the phase after `event`, and what is to be done
/// with the event.
///
/// - The first event opens the root object.
/// - Directly inside the root, the target key leads to the collection and
///   any other key announces a value that is skipped; a value without a
///   key is skipped as well. The root's closing event, or the end of the
///   stream, means that the target key is missing.
/// - The event after the target key opens the collection.
/// - Directly inside the collection, a key announces a record and the
///   closing event ends the collection; nothing else may stand there.
/// - After the collection only the end of the stream may follow.
/// - A navigation that has ended stays as it is.
pub open spec fn transition(target: Seq<char>, phase: PhaseModel, event: EventModel) -> (
    PhaseModel,
    Action,
) {
    match phase {
        PhaseModel::Start => {
            if event is StartObject {
                (PhaseModel::Root, Action::Skip)
            } else {
                fail(StructureError::ExpectedTopLevelObject(event.kind()))
            }
        },
        PhaseModel::Root => {
            match event {
                EventModel::ObjectKey(key) => {
                    if key == target {
                        (PhaseModel::AwaitCollection, Action::Skip)
                    } else {
                        (PhaseModel::Skipping(0), Action::Skip)
                    }
                },
                EventModel::Eof => fail(StructureError::MissingTargetKey),
                EventModel::EndObject => fail(StructureError::MissingTargetKey),
                _ => consume(0, event, false),
            }
        },
        PhaseModel::Skipping(depth) => consume(depth, event, false),
        PhaseModel::AwaitCollection => {
            if event is StartObject {
                (PhaseModel::Collection, Action::Skip)
            } else {
                fail(StructureError::ExpectedObjectAfterTargetKey(event.kind()))
            }
        },
        PhaseModel::Collection => {
            if event is ObjectKey {
                (PhaseModel::Record(0), Action::Skip)
            } else if event is EndObject {
                (PhaseModel::AwaitEnd, Action::Skip)
            } else {
                fail(StructureError::UnexpectedEvent(event.kind()))
            }
        },
        PhaseModel::Record(depth) => consume(depth, event, true),
        PhaseModel::AwaitEnd => {
            if event is Eof {
                (PhaseModel::Done, Action::Finish)
            } else {
                fail(StructureError::TrailingData(event.kind()))
            }
        },
        PhaseModel::Done => (PhaseModel::Done, Action::Finish),
        PhaseModel::Failed(error) => fail(error),
    }
}

/// The failed phase and the action that reports it.
pub open spec fn fail(error: StructureError) -> (PhaseModel, Action) {
    (PhaseModel::Failed(error), Action::Fail(error))
}

/// The navigator's phase without the depth.
#[derive(Clone, Copy, Debug, PartialEq, Eq, Structural)]
pub enum Phase {
    /// Nothing was read yet.
    Start,
    /// Directly inside the root, the target key not seen yet.
    Root,
    /// Inside the value of another member of the root.
    Skipping,
    /// The target key was read.
    AwaitCollection,
    /// Directly inside the target collection.
    Collection,
    /// Inside the value of a record.
    Record,
    /// The collection has ended.
    AwaitEnd,
    /// The stream ended where it had to.
    Done,
    /// The extraction failed.
    Failed(StructureError),
}

impl PhaseModel {
    /// The phase without the depth.
    pub open spec fn kind(self) -> Phase {
        match self {
            PhaseModel::Start => Phase::Start,
            PhaseModel::Root => Phase::Root,
            PhaseModel::Skipping(_) => Phase::Skipping,
            PhaseModel::AwaitCollection => Phase::AwaitCollection,
            PhaseModel::Collection => Phase::Collection,
            PhaseModel::Record(_) => Phase::Record,
            PhaseModel::AwaitEnd => Phase::AwaitEnd,
            PhaseModel::Done => Phase::Done,
            PhaseModel::Failed(error) => Phase::Failed(error),
        }
    }
}

/// What a navigator is: the key it looks for and where it stands.
pub struct NavigatorModel {
    pub target: Seq<char>,
    pub phase: PhaseModel,
}

/// The cursor over a document's events.
pub struct Navigator {
    target: String,
    phase: Phase,
    scanner: ValueScanner,
}

impl View for Navigator {
    type V = NavigatorModel;

    closed spec fn view(&self) -> NavigatorModel {
        NavigatorModel {
            target: self.target@,
            phase: match self.phase {
                Phase::Start => PhaseModel::Start,
                Phase::Root => PhaseModel::Root,
                Phase::Skipping => PhaseModel::Skipping(self.scanner@),
                Phase::AwaitCollection => PhaseModel::AwaitCollection,
                Phase::Collection => PhaseModel::Collection,
                Phase::Record => PhaseModel::Record(self.scanner@),
                Phase::AwaitEnd => PhaseModel::AwaitEnd,
                Phase::Done => PhaseModel::Done,
                Phase::Failed(error) => PhaseModel::Failed(error),
            },
        }
    }
}

impl Navigator {
    /// A navigator that looks for `target_key` among the root's members
    /// and has read nothing yet.
    pub fn new(target_key: &str) -> (r: Self)
        ensures
            r@.target == target_key@,
            r@.phase == PhaseModel::Start,
    {
        Navigator { target: target_key.to_string(), phase: Phase::Start, scanner: ValueScanner::new() }
    }

    /// The key under which the collection is looked for.
    pub fn target_key(&self) -> (r: &str)
        ensures
            r@ == self@.target,
    {
        self.target.as_str()
    }

    /// The phase the navigator is in.
    pub fn phase(&self) -> (r: Phase)
        ensures
            r == self@.phase.kind(),
    {
        self.phase
    }

    /// The depth of the value in flight, zero where there is none.
    pub fn depth(&self) -> (r: u64)
        ensures
            r == self@.phase.depth(),
    {
        match self.phase {
            Phase::Skipping => self.scanner.depth(),
            Phase::Record => self.scanner.depth(),
            _ => 0,
        }
    }

    /// Whether the cursor is inside the target collection.
    pub fn in_collection(&self) -> (r: bool)
        ensures
            r == (self@.phase is Collection || self@.phase is Record),
    {
        match self.phase {
            Phase::Collection => true,
            Phase::Record => true,
            _ => false,
        }
    }

    /// Whether the navigator has ended, with success or without.
    pub fn is_terminal(&self) -> (r: bool)
        ensures
            r == self@.phase.terminal(),
    {
        match self.phase {
            Phase::Done => true,
            Phase::Failed(_) => true,
            _ => false,
        }
    }

    /// Takes the next event: the navigator moves as `transition` says and
    /// returns what is to be done with the event.
    pub fn step(&mut self, event: &Event) -> (action: Action)
        requires
            old(self)@.phase.depth() < u64::MAX,
        ensures
            final(self)@.target == old(self)@.target,
            (final(self)@.phase, action) == transition(old(self)@.target, old(self)@.phase, event@),
    {
        match self.phase {
            Phase::Start => {
                match event {
                    Event::StartObject => self.enter(Phase::Root),
                    _ => self.fail(StructureError::ExpectedTopLevelObject(event.kind())),
                }
            },
            Phase::Root => {
                match event {
                    Event::ObjectKey(key) => {
                        if *key == self.target {
                            self.enter(Phase::AwaitCollection)
                        } else {
                            self.scanner = ValueScanner::new();
                            self.enter(Phase::Skipping)
                        }
                    },
                    Event::Eof => self.fail(StructureError::MissingTargetKey),
                    Event::EndObject => self.fail(StructureError::MissingTargetKey),
                    _ => {
                        self.scanner = ValueScanner::new();
                        self.consume(event, false)
                    },
                }
            },
            Phase::Skipping => self.consume(event, false),
            Phase::AwaitCollection => {
                match event {
                    Event::StartObject => self.enter(Phase::Collection),
                    _ => self.fail(StructureError::ExpectedObjectAfterTargetKey(event.kind())),
                }
            },
            Phase::Collection => {
                match event {
                    Event::ObjectKey(_) => {
                        self.scanner = ValueScanner::new();
                        self.enter(Phase::Record)
                    },
                    Event::EndObject => self.enter(Phase::AwaitEnd),
                    _ => self.fail(StructureError::UnexpectedEvent(event.kind())),
                }
            },
            Phase::Record => self.consume(event, true),
            Phase::AwaitEnd => {
                match event {
                    Event::Eof => {
                        self.phase = Phase::Done;
                        Action::Finish
                    },
                    _ => self.fail(StructureError::TrailingData(event.kind())),
                }
            },
            Phase::Done => Action::Finish,
            Phase::Failed(error) => Action::Fail(error),
        }
    }

    /// Moves to a phase that carries no depth; the event is dropped.
    fn enter(&mut self, phase: Phase) -> (action: Action)
        ensures
            final(self).target == old(self).target,
            final(self).scanner == old(self).scanner,
            final(self).phase == phase,
            action == Action::Skip,
    {
        self.phase = phase;
        Action::Skip
    }

    /// Ends the navigation with `error`.
    fn fail(&mut self, error: StructureError) -> (action: Action)
        ensures
            final(self).target == old(self).target,
            final(self).phase == Phase::Failed(error),
            action == Action::Fail(error),
    {
        self.phase = Phase::Failed(error);
        Action::Fail(error)
    }

    /// Takes one event of the value in flight, which is forwarded as part
    /// of a record or dropped as part of another member.
    fn consume(&mut self, event: &Event, forwarding: bool) -> (action: Action)
        requires
            old(self).scanner@ < u64::MAX,
        ensures
            final(self).target == old(self).target,
            (final(self)@.phase, action) == consume(old(self).scanner@, event@, forwarding),
    {
        match self.scanner.advance(event) {
            Scan::Inside => {
                if forwarding {
                    self.phase = Phase::Record;
                    Action::Forward
                } else {
                    self.enter(Phase::Skipping)
                }
            },
            Scan::Complete => {
                if forwarding {
                    self.phase = Phase::Collection;
                    Action::ForwardAndFlush
                } else {
                    self.enter(Phase::Root)
                }
            },
            Scan::Underflow => self.fail(StructureError::UnexpectedEvent(event.kind())),
            Scan::Truncated => self.fail(StructureError::TruncatedRecord),
        }
    }
}

} // verus!
