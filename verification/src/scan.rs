//! Counting one value's events: the rule by which a value is skipped or
//! transcribed without building it.

use vstd::prelude::*;
use crate::event::Event;
use crate::event::EventModel;

verus! {

/// What one event does to the scan of a value that is `depth` containers
/// deep.
pub enum ScanModel {
    /// The value goes on, at the given depth.
    Inside(nat),
    /// The event is the value's last.
    Complete,
    /// The event closes a container where none is open.
    Underflow,
    /// The stream ended inside the value.
    Truncated,
}

/// The rule: an opening event adds one to the depth; a closing event takes
/// one away and ends the value where the depth returns to zero; any other
/// event leaves the depth as it is and ends the value where nothing is
/// open.
pub open spec fn scan_event(depth: nat, event: EventModel) -> ScanModel {
    if event is Eof {
        ScanModel::Truncated
    } else if event.opens() {
        ScanModel::Inside(depth + 1)
    } else if event.closes() {
        if depth == 0 {
            ScanModel::Underflow
        } else if depth == 1 {
            ScanModel::Complete
        } else {
            ScanModel::Inside((depth - 1) as nat)
        }
    } else if depth == 0 {
        ScanModel::Complete
    } else {
        ScanModel::Inside(depth)
    }
}

/// What `ValueScanner::advance` reports of one event.
#[derive(Clone, Copy, Debug, PartialEq, Eq, Structural)]
pub enum Scan {
    /// The value goes on.
    Inside,
    /// The event is the value's last.
    Complete,
    /// The event closes a container where none is open.
    Underflow,
    /// The stream ended inside the value.
    Truncated,
}

/// The one counter that follows a value through its events.
#[derive(Clone, Copy, Debug)]
pub struct ValueScanner {
    depth: u64,
}

impl View for ValueScanner {
    type V = nat;

    closed spec fn view(&self) -> nat {
        self.depth as nat
    }
}

impl ValueScanner {
    /// A scanner before the first event of a value.
    pub fn new() -> (r: Self)
        ensures
            r@ == 0,
    {
        ValueScanner { depth: 0 }
    }

    /// The number of containers that are open.
    pub fn depth(&self) -> (r: u64)
        ensures
            r == self@,
    {
        self.depth
    }

    /// Takes the next event of the value. The counter follows
    /// `scan_event`; it returns to zero with the value's last event and
    /// stays as it was where the event is no part of the value.
    pub fn advance(&mut self, event: &Event) -> (r: Scan)
        requires
            event@.opens() ==> old(self)@ < u64::MAX,
        ensures
            match scan_event(old(self)@, event@) {
                ScanModel::Inside(depth) => r == Scan::Inside && final(self)@ == depth,
                ScanModel::Complete => r == Scan::Complete && final(self)@ == 0,
                ScanModel::Underflow => r == Scan::Underflow && final(self)@ == old(self)@,
                ScanModel::Truncated => r == Scan::Truncated && final(self)@ == old(self)@,
            },
    {
        if event.is_eof() {
            Scan::Truncated
        } else if event.opens() {
            self.depth = self.depth + 1;
            Scan::Inside
        } else if event.closes() {
            if self.depth == 0 {
                Scan::Underflow
            } else {
                self.depth = self.depth - 1;
                if self.depth == 0 {
                    Scan::Complete
                } else {
                    Scan::Inside
                }
            }
        } else if self.depth == 0 {
            Scan::Complete
        } else {
            Scan::Inside
        }
    }
}

} // verus!
