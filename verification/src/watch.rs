//! Following a feed: one entry for every sequence number past a starting point,
//! in order, as the feed reaches them.
//!
//! Like the search, the watch is a machine. It says what to do next (fetch a
//! record, hand out an entry, wait and look again) and is told what came of it.

use crate::feed::Feed;
use crate::state::{FetchFailure, StateInfo};
use vstd::prelude::*;

verus! {

/// The seconds to wait before looking again for records that the feed did not
/// have yet.
pub const POLL_INTERVAL_SECS: u64 = 60;

/// One entry of a watch: a sequence number that the feed has reached and, unless
/// only the files' addresses are wanted, the state record fetched for it.
#[derive(Debug, Clone, Copy, PartialEq, Eq, Structural)]
pub struct WatchEntry {
    /// The sequence number of the data file.
    pub seqno: u64,
    /// The record fetched under that number.
    pub state: Option<StateInfo>,
}

/// What a watch is waiting for.
#[derive(Debug, Clone, Copy, PartialEq, Eq, Structural)]
pub enum WatchPhase {
    /// For the feed's current record; `wait` says whether to wait before asking.
    Polling { wait: bool },
    /// For the state record of `seqno`, the next to hand out.
    Describing { seqno: u64 },
    /// For `entry` to be handed out.
    Emitting { entry: WatchEntry },
    /// For nothing: the feed has been followed to its end.
    Finished,
    /// For nothing: a record was not to be had.
    Failed { failure: FetchFailure },
}

/// What the driver of a watch has to do next.
#[derive(Debug, Clone, Copy, PartialEq, Eq, Structural)]
pub enum WatchAction {
    /// Wait this many seconds, fetch the feed's current record, and report it.
    FetchCurrent { wait_secs: u64 },
    /// Fetch the record of this sequence number and report it.
    FetchState(u64),
    /// Hand this entry out, and report that it is out.
    Emit(WatchEntry),
    /// Nothing: the watch is over.
    Stop,
    /// Nothing: the watch has failed.
    Fail(FetchFailure),
}

/// A watch at one moment.
pub struct Watch {
    /// The last sequence number handed out or, before the first, the starting point.
    pub cursor: u64,
    /// The sequence number of the current record when the feed was last asked;
    /// the starting point before that.
    pub frontier: u64,
    /// Whether to wait for more when the feed is exhausted.
    pub follow: bool,
    /// Whether entries go out without their state records.
    pub urls_only: bool,
    pub phase: WatchPhase,
}

impl Watch {
    /// The watch that starts after `start`: it asks for the current record first.
    pub open spec fn start(start: u64, follow: bool, urls_only: bool) -> Watch {
        Watch {
            cursor: start,
            frontier: start,
            follow,
            urls_only,
            phase: WatchPhase::Polling { wait: false },
        }
    }

    /// What is asked of a watch: the number it is about to hand out is the one
    /// after the cursor, and the feed has reached it.
    pub open spec fn wf(self) -> bool {
        match self.phase {
            WatchPhase::Describing { seqno } => self.cursor < self.frontier && seqno == self.cursor
                + 1,
            WatchPhase::Emitting { entry } => self.cursor < self.frontier && entry.seqno
                == self.cursor + 1,
            _ => true,
        }
    }

    /// The watch once cursor and frontier are settled: it turns to the next
    /// sequence number where the feed has reached one, and else waits to ask
    /// again or, where it is not to follow, finishes.
    pub open spec fn proceed(self) -> Watch {
        if self.cursor < self.frontier {
            let seqno = (self.cursor + 1) as u64;
            if self.urls_only {
                Watch {
                    phase: WatchPhase::Emitting { entry: WatchEntry { seqno, state: None } },
                    ..self
                }
            } else {
                Watch { phase: WatchPhase::Describing { seqno }, ..self }
            }
        } else if self.follow {
            Watch { phase: WatchPhase::Polling { wait: true }, ..self }
        } else {
            Watch { phase: WatchPhase::Finished, ..self }
        }
    }

    /// The watch after the driver reports what a fetch gave. The current record
    /// sets the frontier. A state record becomes the entry to hand out. A fetch
    /// that failed fails the watch. A watch that asked for no fetch stays as it is.
    pub open spec fn fetched(self, result: Result<StateInfo, FetchFailure>) -> Watch {
        match self.phase {
            WatchPhase::Polling { wait } => match result {
                Ok(current) => (Watch { frontier: current.seqno, ..self }).proceed(),
                Err(failure) => Watch { phase: WatchPhase::Failed { failure }, ..self },
            },
            WatchPhase::Describing { seqno } => match result {
                Ok(state) => Watch {
                    phase: WatchPhase::Emitting { entry: WatchEntry { seqno, state: Some(state) } },
                    ..self
                },
                Err(failure) => Watch { phase: WatchPhase::Failed { failure }, ..self },
            },
            _ => self,
        }
    }

    /// The watch after the driver reports that the entry is out: the cursor has
    /// moved to it. A watch that had no entry to hand out stays as it is.
    pub open spec fn emitted(self) -> Watch {
        match self.phase {
            WatchPhase::Emitting { entry } => (Watch { cursor: entry.seqno, ..self }).proceed(),
            _ => self,
        }
    }

    /// What the driver has to do.
    pub open spec fn action(self) -> WatchAction {
        match self.phase {
            WatchPhase::Polling { wait } => WatchAction::FetchCurrent {
                wait_secs: if wait {
                    POLL_INTERVAL_SECS
                } else {
                    0
                },
            },
            WatchPhase::Describing { seqno } => WatchAction::FetchState(seqno),
            WatchPhase::Emitting { entry } => WatchAction::Emit(entry),
            WatchPhase::Finished => WatchAction::Stop,
            WatchPhase::Failed { failure } => WatchAction::Fail(failure),
        }
    }
}

/// A watch under way.
#[derive(Debug, Clone, Copy)]
pub struct WatchStream {
    cursor: u64,
    frontier: u64,
    follow: bool,
    urls_only: bool,
    phase: WatchPhase,
}

impl View for WatchStream {
    type V = Watch;

    closed spec fn view(&self) -> Watch {
        Watch {
            cursor: self.cursor,
            frontier: self.frontier,
            follow: self.follow,
            urls_only: self.urls_only,
            phase: self.phase,
        }
    }
}

impl WatchStream {
    /// A watch under way is always well-formed.
    #[verifier::type_invariant]
    pub closed spec fn wf(self) -> bool {
        self@.wf()
    }

    /// A watch of the sequence numbers after `start`. With `follow` it waits for
    /// more when the feed is exhausted; with `urls_only` it fetches no state
    /// records.
    pub fn new(start: u64, follow: bool, urls_only: bool) -> (w: WatchStream)
        ensures
            w@ == Watch::start(start, follow, urls_only),
    {
        WatchStream {
            cursor: start,
            frontier: start,
            follow,
            urls_only,
            phase: WatchPhase::Polling { wait: false },
        }
    }

    /// The last sequence number handed out or, before the first, the starting point.
    pub fn cursor(&self) -> (c: u64)
        ensures
            c == self@.cursor,
    {
        self.cursor
    }

    /// What the watch is waiting for.
    pub fn phase(&self) -> (p: WatchPhase)
        ensures
            p == self@.phase,
            self@.wf(),
    {
        proof {
            use_type_invariant(self);
        }
        self.phase
    }

    /// What the driver has to do next.
    pub fn action(&self) -> (a: WatchAction)
        ensures
            a == self@.action(),
    {
        match self.phase {
            WatchPhase::Polling { wait } => WatchAction::FetchCurrent {
                wait_secs: if wait {
                    POLL_INTERVAL_SECS
                } else {
                    0
                },
            },
            WatchPhase::Describing { seqno } => WatchAction::FetchState(seqno),
            WatchPhase::Emitting { entry } => WatchAction::Emit(entry),
            WatchPhase::Finished => WatchAction::Stop,
            WatchPhase::Failed { failure } => WatchAction::Fail(failure),
        }
    }

    /// The phase to turn to once cursor and frontier are settled.
    fn proceed(cursor: u64, frontier: u64, follow: bool, urls_only: bool) -> (w: WatchStream)
        ensures
            w@ == (Watch {
                cursor,
                frontier,
                follow,
                urls_only,
                phase: WatchPhase::Finished,
            }).proceed(),
    {
        let phase = if cursor < frontier {
            let seqno: u64 = cursor + 1;
            if urls_only {
                WatchPhase::Emitting { entry: WatchEntry { seqno, state: None } }
            } else {
                WatchPhase::Describing { seqno }
            }
        } else if follow {
            WatchPhase::Polling { wait: true }
        } else {
            WatchPhase::Finished
        };
        WatchStream { cursor, frontier, follow, urls_only, phase }
    }

    /// Tells the watch what the fetch it asked for gave.
    pub fn fetched(self, result: Result<StateInfo, FetchFailure>) -> (next: WatchStream)
        ensures
            next@ == self@.fetched(result),
    {
        proof {
            use_type_invariant(&self);
        }
        match self.phase {
            WatchPhase::Polling { wait } => match result {
                Ok(current) => Self::proceed(
                    self.cursor,
                    current.seqno,
                    self.follow,
                    self.urls_only,
                ),
                Err(failure) => WatchStream { phase: WatchPhase::Failed { failure }, ..self },
            },
            WatchPhase::Describing { seqno } => match result {
                Ok(state) => WatchStream {
                    phase: WatchPhase::Emitting { entry: WatchEntry { seqno, state: Some(state) } },
                    ..self
                },
                Err(failure) => WatchStream { phase: WatchPhase::Failed { failure }, ..self },
            },
            _ => self,
        }
    }

    /// Tells the watch that the entry it gave has been handed out.
    pub fn emitted(self) -> (next: WatchStream)
        ensures
            next@ == self@.emitted(),
    {
        proof {
            use_type_invariant(&self);
        }
        match self.phase {
            WatchPhase::Emitting { entry } => Self::proceed(
                entry.seqno,
                self.frontier,
                self.follow,
                self.urls_only,
            ),
            _ => self,
        }
    }
}

impl Watch {
    /// 1 before the feed has been asked for the first time, 0 after.
    pub open spec fn unasked(self) -> nat {
        if self.phase == (WatchPhase::Polling { wait: false }) {
            1
        } else {
            0
        }
    }

    /// How many sequence numbers the feed has reached that are not handed out yet.
    pub open spec fn remaining(self) -> nat {
        if self.cursor < self.frontier {
            (self.frontier - self.cursor) as nat
        } else {
            0
        }
    }

    /// How many reports the next entry is away.
    pub open spec fn pending(self) -> nat {
        match self.phase {
            WatchPhase::Describing { seqno } => 2,
            WatchPhase::Emitting { entry } => 1,
            _ => 0,
        }
    }
}

impl Feed {
    /// The entry that a watch makes of `seqno` on this feed.
    pub open spec fn entry(self, seqno: u64, urls_only: bool) -> WatchEntry {
        WatchEntry {
            seqno,
            state: if urls_only {
                None
            } else {
                Some(StateInfo { seqno, timestamp: self.published[seqno] })
            },
        }
    }

    /// What a watch does on this feed from where it stands until it is over or
    /// has to wait: the entries it hands out, in order, and the phase it stops in.
    pub open spec fn watched(self, watch: Watch) -> (Seq<WatchEntry>, WatchPhase)
        decreases watch.unasked(), watch.remaining(), watch.pending(),
        when watch.wf()
    {
        match watch.phase {
            WatchPhase::Polling { wait } => {
                if wait {
                    (Seq::empty(), watch.phase)
                } else {
                    self.watched(watch.fetched(self.latest()))
                }
            },
            WatchPhase::Describing { seqno } => self.watched(watch.fetched(self.record(seqno))),
            WatchPhase::Emitting { entry } => {
                let (later, end) = self.watched(watch.emitted());
                (seq![entry] + later, end)
            },
            _ => (Seq::empty(), watch.phase),
        }
    }

    /// Whether a watch has handed out what lies behind its cursor and stands where
    /// a watch of this feed stands that has just settled its cursor, or one report
    /// further.
    spec fn on_course(self, watch: Watch) -> bool {
        &&& watch.frontier == self.current
        &&& watch.urls_only || forall|seqno: u64|
            watch.cursor < seqno <= self.current ==> #[trigger] self.has(seqno)
        &&& watch.phase == watch.proceed().phase || (watch.cursor < watch.frontier && watch.phase
            == (WatchPhase::Emitting {
            entry: self.entry((watch.cursor + 1) as u64, watch.urls_only),
        }))
    }

    /// A watch on course hands out the rest of what the feed has reached.
    proof fn lemma_watched_on_course(self, watch: Watch)
        requires
            self.on_course(watch),
        ensures
            self.watched(watch).0.len() == watch.remaining(),
            forall|i: int|
                0 <= i < watch.remaining() ==> #[trigger] self.watched(watch).0[i] == self.entry(
                    (watch.cursor + 1 + i) as u64,
                    watch.urls_only,
                ),
            self.watched(watch).1 == if watch.follow {
                WatchPhase::Polling { wait: true }
            } else {
                WatchPhase::Finished
            },
        decreases watch.remaining(), watch.pending(),
    {
        match watch.phase {
            WatchPhase::Describing { seqno } => {
                assert(self.has(seqno));
                self.lemma_watched_on_course(watch.fetched(self.record(seqno)));
            },
            WatchPhase::Emitting { entry } => {
                let next = watch.emitted();
                self.lemma_watched_on_course(next);
                let later = self.watched(next).0;
                assert forall|i: int| 0 <= i < watch.remaining() implies #[trigger] self.watched(
                    watch,
                ).0[i] == self.entry((watch.cursor + 1 + i) as u64, watch.urls_only) by {
                    if i > 0 {
                        assert((seq![entry] + later)[i] == later[i - 1]);
                    }
                }
            },
            _ => {},
        }
    }

    /// A watch hands out one entry for each sequence number after its starting
    /// point that the feed has reached: as many as the current number lies above
    /// the start, in rising order, none left out and none twice. It then finishes
    /// or, where it is to follow the feed, waits to ask again.
    ///
    /// This is said of a watch whose fetches succeed: one that gives only the
    /// files' addresses, or one on a feed that has a record under each of those
    /// numbers. A record that is missing fails the watch.
    pub proof fn lemma_watch_hands_out_each_once(self, start: u64, follow: bool, urls_only: bool)
        requires
            urls_only || forall|seqno: u64| start < seqno <= self.current ==> #[trigger] self.has(
                seqno,
            ),
        ensures
            ({
                let (entries, end) = self.watched(Watch::start(start, follow, urls_only));
                &&& entries.len() == if self.current > start {
                    self.current - start
                } else {
                    0
                }
                &&& forall|i: int|
                    0 <= i < entries.len() ==> #[trigger] entries[i] == self.entry(
                        (start + 1 + i) as u64,
                        urls_only,
                    )
                &&& end == if follow {
                    WatchPhase::Polling { wait: true }
                } else {
                    WatchPhase::Finished
                }
            }),
    {
        let begun = Watch::start(start, follow, urls_only);
        self.lemma_watched_on_course(begun.fetched(self.latest()));
    }
}

} // verus!
