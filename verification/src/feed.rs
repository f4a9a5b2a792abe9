//! What a feed holds, seen from outside: the model against which the search and
//! the watch are stated to be right.

use crate::state::{FetchFailure, StateInfo};
use crate::timestamp::Timestamp;
use vstd::prelude::*;

verus! {

/// A feed at one moment: the sequence number of its current record, and the
/// instant of every record that can be fetched. A feed may lack records below
/// its current one.
pub struct Feed {
    pub current: u64,
    pub published: Map<u64, Timestamp>,
}

impl Feed {
    /// Whether the feed has a record under `seqno`.
    pub open spec fn has(self, seqno: u64) -> bool {
        self.published.contains_key(seqno)
    }

    /// Whether `record` is the feed's record under its sequence number.
    pub open spec fn holds(self, record: StateInfo) -> bool {
        self.has(record.seqno) && self.published[record.seqno] == record.timestamp
    }

    /// What is expected of a feed: its current record is there, none lies beyond
    /// it, and no record is dated before one of a lower sequence number.
    pub open spec fn valid(self) -> bool {
        &&& self.has(self.current)
        &&& forall|seqno: u64| #[trigger] self.has(seqno) ==> seqno <= self.current
        &&& forall|a: u64, b: u64|
            #[trigger] self.has(a) && #[trigger] self.has(b) && a <= b ==> !self.published[b].before(
                self.published[a],
            )
    }

    /// Whether the feed has a record under every sequence number up to its
    /// current one.
    pub open spec fn complete(self) -> bool {
        forall|seqno: u64| seqno <= self.current ==> #[trigger] self.has(seqno)
    }

    /// Whether no record lies below `seqno`.
    pub open spec fn is_first(self, seqno: u64) -> bool {
        forall|below: u64| below < seqno ==> !#[trigger] self.has(below)
    }

    /// What a fetch of the current record gives.
    pub open spec fn latest(self) -> Result<StateInfo, FetchFailure> {
        Ok(StateInfo { seqno: self.current, timestamp: self.published[self.current] })
    }

    /// What a fetch of the record under `seqno` gives.
    pub open spec fn record(self, seqno: u64) -> Result<StateInfo, FetchFailure> {
        if self.has(seqno) {
            Ok(StateInfo { seqno, timestamp: self.published[seqno] })
        } else {
            Err(FetchFailure::NotFound)
        }
    }
}

} // verus!
