//! From a point in time to the sequence number that a feed had reached then.
//!
//! A feed answers two questions: what its current record is, and what the record
//! of a given sequence number is. The search asks one question at a time. It is
//! written as a machine that is told each answer and says what to ask next, so
//! that whoever drives it decides how a question travels.

use crate::feed::Feed;
use crate::state::{FetchFailure, StateInfo};
use crate::timestamp::Timestamp;
use vstd::prelude::*;

verus! {

/// Why a search ended without a sequence number.
#[derive(Debug, Clone, Copy, PartialEq, Eq, Structural)]
pub enum ResolveError {
    /// A record that the search could not do without was not to be had.
    Fetch(FetchFailure),
    /// A record dated before the target bears a sequence number that is not below
    /// that of the feed's current record.
    Inconsistent,
}

/// Where a search stands.
#[derive(Debug, Clone, Copy, PartialEq, Eq, Structural)]
pub enum Phase {
    /// Nothing is known yet: the feed's current record is wanted.
    Current,
    /// No record dated before the target is known yet; `probe` is looked at next.
    Bracketing { upper: StateInfo, probe: u64 },
    /// `lower` is dated before the target and `upper` is not; `guess` lies between
    /// them and is looked at next.
    Narrowing { lower: StateInfo, upper: StateInfo, guess: u64 },
    /// The search has ended with a sequence number.
    Resolved { seqno: u64 },
    /// The search has ended without one.
    Failed { error: ResolveError },
}

/// What the driver of a search has to do next.
#[derive(Debug, Clone, Copy, PartialEq, Eq, Structural)]
pub enum ResolveAction {
    /// Fetch the feed's current record and tell the search.
    FetchCurrent,
    /// Fetch the record of this sequence number and tell the search.
    FetchState(u64),
    /// Nothing: this is the sequence number.
    Done(u64),
    /// Nothing: the search has failed.
    Fail(ResolveError),
}

/// The sequence number to look at inside a bracket: as far above `lower` as the
/// `wanted` seconds are into the `span` seconds that the bracket covers, rounded
/// up, at least one step, and always below `upper`. Where the times give no rate,
/// one step.
pub open spec fn interpolated(lower: u64, upper: u64, span: int, wanted: int) -> int {
    let gap = upper - lower;
    let stride = if span > 0 && wanted > 0 {
        (wanted * gap + span - 1) / span
    } else {
        1
    };
    if stride < gap {
        lower + stride
    } else {
        upper - 1
    }
}

/// The sequence number to look at between two records when searching for `target`.
pub open spec fn estimate(target: Timestamp, lower: StateInfo, upper: StateInfo) -> int {
    interpolated(
        lower.seqno,
        upper.seqno,
        upper.timestamp.seconds_since_spec(lower.timestamp),
        target.seconds_since_spec(lower.timestamp),
    )
}

/// The guess lies in the bracket, and above its lower end where there is room.
pub proof fn lemma_interpolated_within(lower: u64, upper: u64, span: int, wanted: int)
    requires
        lower < upper,
    ensures
        lower <= interpolated(lower, upper, span, wanted) < upper,
        lower + 1 < upper ==> lower < interpolated(lower, upper, span, wanted),
{
    let gap = upper - lower;
    if span > 0 && wanted > 0 {
        assert(wanted * gap >= 1) by (nonlinear_arith)
            requires
                wanted >= 1,
                gap >= 1,
        ;
        assert((wanted * gap + span - 1) / span >= 1) by (nonlinear_arith)
            requires
                wanted * gap >= 1,
                span > 0,
        ;
    }
}

/// Computes the sequence number to look at inside a bracket.
pub fn interpolate(lower: u64, upper: u64, span: i64, wanted: i64) -> (guess: u64)
    requires
        lower < upper,
    ensures
        guess == interpolated(lower, upper, span as int, wanted as int),
{
    let gap: u64 = upper - lower;
    let stride: u128 = if span > 0 && wanted > 0 {
        assert((wanted as int) * (gap as int) <= 0x7fff_ffff_ffff_ffff * 0xffff_ffff_ffff_ffff)
            by (nonlinear_arith)
            requires
                0 < wanted <= 0x7fff_ffff_ffff_ffff,
                0 <= gap <= 0xffff_ffff_ffff_ffff,
        ;
        assert((wanted as int) * (gap as int) >= 0) by (nonlinear_arith)
            requires
                0 < wanted,
                0 <= gap,
        ;
        ((wanted as u128) * (gap as u128) + (span as u128) - 1) / (span as u128)
    } else {
        1
    };
    if stride < gap as u128 {
        lower + stride as u64
    } else {
        upper - 1
    }
}

impl Phase {
    /// What is asked of the phases that hold numbers: the probe lies below the
    /// upper record, the lower record below the upper one, and the guess between
    /// them, above the lower one where there is room.
    pub open spec fn wf(self) -> bool {
        match self {
            Phase::Bracketing { upper, probe } => probe < upper.seqno,
            Phase::Narrowing { lower, upper, guess } => {
                &&& lower.seqno <= guess < upper.seqno
                &&& lower.seqno + 1 < upper.seqno ==> lower.seqno < guess
            },
            _ => true,
        }
    }

    /// Whether the search has ended.
    pub open spec fn ended(self) -> bool {
        self is Resolved || self is Failed
    }

    /// What the driver has to do in this phase.
    pub open spec fn action(self) -> ResolveAction {
        match self {
            Phase::Current => ResolveAction::FetchCurrent,
            Phase::Bracketing { upper, probe } => ResolveAction::FetchState(probe),
            Phase::Narrowing { lower, upper, guess } => ResolveAction::FetchState(guess),
            Phase::Resolved { seqno } => ResolveAction::Done(seqno),
            Phase::Failed { error } => ResolveAction::Fail(error),
        }
    }

    /// The phase that looks between `lower` and `upper`.
    pub open spec fn between(target: Timestamp, lower: StateInfo, upper: StateInfo) -> Phase {
        Phase::Narrowing { lower, upper, guess: estimate(target, lower, upper) as u64 }
    }

    /// The phase after a bracket has been narrowed to `lower` and `upper`: the end
    /// where no sequence number is left between them.
    pub open spec fn narrowed(target: Timestamp, lower: StateInfo, upper: StateInfo) -> Phase {
        if lower.seqno + 1 >= upper.seqno {
            Phase::Resolved { seqno: lower.seqno }
        } else {
            Self::between(target, lower, upper)
        }
    }

    /// The phase that follows when the driver reports what the fetch gave.
    ///
    /// - The current record ends the search at once where it is dated before the
    ///   target or bears the number 0. Without it the search fails.
    /// - While bracketing, a record dated before the target becomes the lower end
    ///   of the bracket, and any other record ends the search with its number. A
    ///   record that is not there moves the probe half the way to the upper
    ///   record, and ends the search with the upper record's number where half
    ///   the way is nothing. A document that cannot be decoded fails the search.
    /// - While narrowing, the record replaces the lower end of the bracket where it
    ///   is dated before the target, else the upper end. Without it the search
    ///   fails.
    pub open spec fn step(self, target: Timestamp, fetched: Result<StateInfo, FetchFailure>) -> Phase {
        match self {
            Phase::Current => match fetched {
                Ok(current) => {
                    if current.timestamp.before(target) || current.seqno == 0 {
                        Phase::Resolved { seqno: current.seqno }
                    } else {
                        Phase::Bracketing { upper: current, probe: 0 }
                    }
                },
                Err(failure) => Phase::Failed { error: ResolveError::Fetch(failure) },
            },
            Phase::Bracketing { upper, probe } => match fetched {
                Ok(found) => {
                    if !found.timestamp.before(target) {
                        Phase::Resolved { seqno: found.seqno }
                    } else if found.seqno < upper.seqno {
                        Self::between(target, found, upper)
                    } else {
                        Phase::Failed { error: ResolveError::Inconsistent }
                    }
                },
                Err(FetchFailure::Decode) => Phase::Failed {
                    error: ResolveError::Fetch(FetchFailure::Decode),
                },
                Err(_) => {
                    let stride = (upper.seqno - probe) / 2;
                    if stride == 0 {
                        Phase::Resolved { seqno: upper.seqno }
                    } else {
                        Phase::Bracketing { upper, probe: (probe + stride) as u64 }
                    }
                },
            },
            Phase::Narrowing { lower, upper, guess } => match fetched {
                Ok(found) => {
                    if found.timestamp.before(target) {
                        Self::narrowed(target, found, upper)
                    } else {
                        Self::narrowed(target, lower, found)
                    }
                },
                Err(failure) => Phase::Failed { error: ResolveError::Fetch(failure) },
            },
            Phase::Resolved { seqno } => self,
            Phase::Failed { error } => self,
        }
    }

    /// How many kinds of phase can still follow this one.
    pub open spec fn rank(self) -> nat {
        match self {
            Phase::Current => 3,
            Phase::Bracketing { upper, probe } => 2,
            Phase::Narrowing { lower, upper, guess } => 1,
            _ => 0,
        }
    }

    /// How many sequence numbers the phase has still to choose from.
    pub open spec fn distance(self) -> nat {
        match self {
            Phase::Bracketing { upper, probe } => (upper.seqno - probe) as nat,
            Phase::Narrowing { lower, upper, guess } => (upper.seqno - lower.seqno) as nat,
            _ => 0,
        }
    }
}

/// Every step of a well-formed phase gives a well-formed phase.
pub proof fn lemma_step_wf(phase: Phase, target: Timestamp, fetched: Result<StateInfo, FetchFailure>)
    requires
        phase.wf(),
    ensures
        phase.step(target, fetched).wf(),
{
    match phase {
        Phase::Bracketing { upper, probe } => {
            if let Ok(found) = fetched {
                if found.seqno < upper.seqno {
                    lemma_interpolated_within(
                        found.seqno,
                        upper.seqno,
                        upper.timestamp.seconds_since_spec(found.timestamp),
                        target.seconds_since_spec(found.timestamp),
                    );
                }
            }
        },
        Phase::Narrowing { lower, upper, guess } => {
            if let Ok(found) = fetched {
                if found.seqno < upper.seqno {
                    lemma_interpolated_within(
                        found.seqno,
                        upper.seqno,
                        upper.timestamp.seconds_since_spec(found.timestamp),
                        target.seconds_since_spec(found.timestamp),
                    );
                }
                if lower.seqno < found.seqno {
                    lemma_interpolated_within(
                        lower.seqno,
                        found.seqno,
                        found.timestamp.seconds_since_spec(lower.timestamp),
                        target.seconds_since_spec(lower.timestamp),
                    );
                }
            }
        },
        _ => {},
    }
}

/// Bracketing cannot go on for ever: whatever the fetch of the probe gives, the
/// search either leaves the bracketing phase or keeps its upper record and moves
/// the probe strictly up, to a number still below the upper record's, leaving at
/// most half of the distance (rounded up).
pub proof fn lemma_bracketing_moves_up(
    target: Timestamp,
    upper: StateInfo,
    probe: u64,
    fetched: Result<StateInfo, FetchFailure>,
)
    requires
        probe < upper.seqno,
    ensures
        match (Phase::Bracketing { upper, probe }).step(target, fetched) {
            Phase::Bracketing { upper: kept, probe: moved } => {
                &&& kept == upper
                &&& probe < moved < upper.seqno
                &&& 2 * (upper.seqno - moved) <= (upper.seqno - probe) + 1
            },
            _ => true,
        },
{
}

/// A search under way: the target and the phase reached.
#[derive(Debug, Clone, Copy)]
pub struct Resolver {
    target: Timestamp,
    phase: Phase,
}

impl Resolver {
    /// The phase of a search is always well-formed.
    #[verifier::type_invariant]
    pub closed spec fn wf(self) -> bool {
        self.phase.wf()
    }

    /// The instant searched for.
    pub closed spec fn spec_target(&self) -> Timestamp {
        self.target
    }

    /// The phase reached.
    pub closed spec fn spec_phase(&self) -> Phase {
        self.phase
    }

    /// A search for the sequence number that the feed had reached at `target`.
    pub fn new(target: Timestamp) -> (r: Resolver)
        ensures
            r.target() == target,
            r.phase() == Phase::Current,
    {
        Resolver { target, phase: Phase::Current }
    }

    /// The instant searched for.
    #[verifier::when_used_as_spec(spec_target)]
    pub fn target(&self) -> (t: Timestamp)
        ensures
            t == self.spec_target(),
    {
        self.target
    }

    /// The phase reached.
    #[verifier::when_used_as_spec(spec_phase)]
    pub fn phase(&self) -> (p: Phase)
        ensures
            p == self.spec_phase(),
            p.wf(),
    {
        proof {
            use_type_invariant(self);
        }
        self.phase
    }

    /// What the driver has to do next.
    pub fn action(&self) -> (a: ResolveAction)
        ensures
            a == self.phase().action(),
    {
        match self.phase {
            Phase::Current => ResolveAction::FetchCurrent,
            Phase::Bracketing { upper, probe } => ResolveAction::FetchState(probe),
            Phase::Narrowing { lower, upper, guess } => ResolveAction::FetchState(guess),
            Phase::Resolved { seqno } => ResolveAction::Done(seqno),
            Phase::Failed { error } => ResolveAction::Fail(error),
        }
    }

    /// The phase that looks between two records, `lower` below `upper`.
    fn between(target: &Timestamp, lower: StateInfo, upper: StateInfo) -> (p: Phase)
        requires
            lower.seqno < upper.seqno,
        ensures
            p == Phase::between(*target, lower, upper),
            p.wf(),
    {
        let span: i64 = upper.timestamp.seconds_since(&lower.timestamp);
        let wanted: i64 = target.seconds_since(&lower.timestamp);
        proof {
            lemma_interpolated_within(lower.seqno, upper.seqno, span as int, wanted as int);
        }
        Phase::Narrowing { lower, upper, guess: interpolate(lower.seqno, upper.seqno, span, wanted) }
    }

    /// The phase after a bracket has been narrowed to `lower` and `upper`.
    fn narrowed(target: &Timestamp, lower: StateInfo, upper: StateInfo) -> (p: Phase)
        ensures
            p == Phase::narrowed(*target, lower, upper),
            p.wf(),
    {
        if lower.seqno >= upper.seqno || upper.seqno - lower.seqno <= 1 {
            Phase::Resolved { seqno: lower.seqno }
        } else {
            Self::between(target, lower, upper)
        }
    }

    /// Tells the search what the fetch it asked for gave, and moves it on. A search
    /// that has ended stays as it is.
    pub fn advance(self, fetched: Result<StateInfo, FetchFailure>) -> (next: Resolver)
        ensures
            next.target() == self.target(),
            next.phase() == self.phase().step(self.target(), fetched),
    {
        proof {
            use_type_invariant(&self);
        }
        let target = self.target;
        let phase = match self.phase {
            Phase::Current => match fetched {
                Ok(current) => {
                    if current.timestamp.is_before(&target) || current.seqno == 0 {
                        Phase::Resolved { seqno: current.seqno }
                    } else {
                        Phase::Bracketing { upper: current, probe: 0 }
                    }
                },
                Err(failure) => Phase::Failed { error: ResolveError::Fetch(failure) },
            },
            Phase::Bracketing { upper, probe } => match fetched {
                Ok(found) => {
                    if !found.timestamp.is_before(&target) {
                        Phase::Resolved { seqno: found.seqno }
                    } else if found.seqno < upper.seqno {
                        Self::between(&target, found, upper)
                    } else {
                        Phase::Failed { error: ResolveError::Inconsistent }
                    }
                },
                Err(FetchFailure::Decode) => Phase::Failed {
                    error: ResolveError::Fetch(FetchFailure::Decode),
                },
                Err(_) => {
                    let stride: u64 = (upper.seqno - probe) / 2;
                    if stride == 0 {
                        Phase::Resolved { seqno: upper.seqno }
                    } else {
                        Phase::Bracketing { upper, probe: probe + stride }
                    }
                },
            },
            Phase::Narrowing { lower, upper, guess } => match fetched {
                Ok(found) => {
                    if found.timestamp.is_before(&target) {
                        Self::narrowed(&target, found, upper)
                    } else {
                        Self::narrowed(&target, lower, found)
                    }
                },
                Err(failure) => Phase::Failed { error: ResolveError::Fetch(failure) },
            },
            Phase::Resolved { seqno } => Phase::Resolved { seqno },
            Phase::Failed { error } => Phase::Failed { error },
        };
        Resolver { target, phase }
    }
}

impl Feed {
    /// What the feed answers to the fetch that `phase` asks for.
    pub open spec fn answer(self, phase: Phase) -> Result<StateInfo, FetchFailure> {
        match phase.action() {
            ResolveAction::FetchCurrent => self.latest(),
            ResolveAction::FetchState(seqno) => self.record(seqno),
            _ => Err(FetchFailure::NotFound),
        }
    }

    /// The phase in which a search that stands at `phase` ends when every fetch
    /// is answered by this feed.
    pub open spec fn run(self, target: Timestamp, phase: Phase) -> Phase
        decreases phase.rank(), phase.distance(),
        when phase.wf()
    {
        if phase.ended() {
            phase
        } else {
            self.run(target, phase.step(target, self.answer(phase)))
        }
    }

    /// How a search for `target` ends on this feed.
    pub open spec fn resolve(self, target: Timestamp) -> Phase {
        self.run(target, Phase::Current)
    }
}

impl Feed {
    /// The sequence number after `seqno`, where the feed has a record under it.
    pub open spec fn follower(self, seqno: u64) -> Option<u64> {
        if seqno < u64::MAX && self.has((seqno + 1) as u64) {
            Some((seqno + 1) as u64)
        } else {
            None
        }
    }

    /// What a search on this feed knows in each phase: the upper record while
    /// bracketing is the current one and not dated before the target; the two
    /// records while narrowing are records of the feed, the lower dated before the
    /// target and the upper not; a sequence number that ends the search is that of
    /// a record and, where that record is dated before the target, the next
    /// record is not, or there is none because the record is the current one.
    pub open spec fn sound(self, target: Timestamp, phase: Phase) -> bool {
        match phase {
            Phase::Current => true,
            Phase::Bracketing { upper, probe } => {
                &&& self.latest() == Ok::<StateInfo, FetchFailure>(upper)
                &&& !upper.timestamp.before(target)
            },
            Phase::Narrowing { lower, upper, guess } => {
                &&& self.holds(lower)
                &&& self.holds(upper)
                &&& lower.timestamp.before(target)
                &&& !upper.timestamp.before(target)
            },
            Phase::Resolved { seqno } => {
                &&& self.has(seqno)
                &&& self.published[seqno].before(target) ==> seqno == self.current || (
                self.follower(seqno) matches Some(next) && !self.published[next].before(target))
            },
            Phase::Failed { error } => true,
        }
    }

    /// One step on a valid feed keeps what the search knows.
    proof fn lemma_step_sound(self, target: Timestamp, phase: Phase)
        requires
            self.valid(),
            phase.wf(),
            self.sound(target, phase),
        ensures
            self.sound(target, phase.step(target, self.answer(phase))),
    {
        match phase {
            Phase::Narrowing { lower, upper, guess } => {
                if let Ok(found) = self.answer(phase) {
                    assert(found.seqno == guess);
                    if !found.timestamp.before(target) {
                        assert(found != lower);
                        assert(lower.seqno < found.seqno);
                    }
                }
            },
            _ => {},
        }
    }

    /// A search on a valid feed ends, and ends knowing what `sound` says.
    proof fn lemma_run_sound(self, target: Timestamp, phase: Phase)
        requires
            self.valid(),
            phase.wf(),
            self.sound(target, phase),
        ensures
            self.run(target, phase).ended(),
            self.sound(target, self.run(target, phase)),
        decreases phase.rank(), phase.distance(),
    {
        if !phase.ended() {
            let next = phase.step(target, self.answer(phase));
            lemma_step_wf(phase, target, self.answer(phase));
            self.lemma_step_sound(target, phase);
            self.lemma_run_sound(target, next);
        }
    }

    /// Every search comes to an end, on any feed: with a sequence number or with a
    /// failure.
    pub proof fn lemma_search_ends(self, target: Timestamp)
        ensures
            self.resolve(target).ended(),
    {
        self.lemma_run_ends(target, Phase::Current);
    }

    /// A search that stands at a well-formed phase comes to an end.
    proof fn lemma_run_ends(self, target: Timestamp, phase: Phase)
        requires
            phase.wf(),
        ensures
            self.run(target, phase).ended(),
        decreases phase.rank(), phase.distance(),
    {
        if !phase.ended() {
            lemma_step_wf(phase, target, self.answer(phase));
            self.lemma_run_ends(target, phase.step(target, self.answer(phase)));
        }
    }

    /// On a valid feed a search names a record of the feed. Where that record is
    /// dated before the target, it is the last such record: it is the current
    /// record, or the record after it is there and is not dated before the target.
    pub proof fn lemma_resolved_brackets_target(self, target: Timestamp, seqno: u64)
        requires
            self.valid(),
            self.resolve(target) == (Phase::Resolved { seqno }),
        ensures
            self.has(seqno),
            self.published[seqno].before(target) ==> seqno == self.current || (self.follower(
                seqno,
            ) matches Some(next) && !self.published[next].before(target)),
    {
        self.lemma_run_sound(target, Phase::Current);
    }

    /// Whether the record after `seqno` is dated exactly at `target` while records
    /// lie below `seqno`.
    pub open spec fn tied_after(self, target: Timestamp, seqno: u64) -> bool {
        &&& self.follower(seqno) matches Some(next)
        &&& self.published[next] == target
        &&& !self.is_first(seqno)
    }

    /// On a valid feed the record that a search names is the one that was current
    /// at the target: it is not dated after the target, and it is the feed's first
    /// record, or no record follows it, or the record that follows is dated after
    /// the target.
    ///
    /// Two kinds of target are left out, on which this does not hold. The first is
    /// a target that lies before the record named: the search found no record as
    /// old as the target, and names the oldest it reached. The second is a target
    /// at which exactly the following record is dated: a record counts as before
    /// the target only where its date is strictly earlier.
    pub proof fn lemma_resolved_is_current_at_target(self, target: Timestamp, seqno: u64)
        requires
            self.valid(),
            self.resolve(target) == (Phase::Resolved { seqno }),
            !target.before(self.published[seqno]),
            !self.tied_after(target, seqno),
        ensures
            self.has(seqno),
            !target.before(self.published[seqno]),
            self.is_first(seqno) || self.follower(seqno) is None || (self.follower(
                seqno,
            ) matches Some(next) && target.before(self.published[next])),
    {
        self.lemma_resolved_brackets_target(target, seqno);
        if let Some(next) = self.follower(seqno) {
            assert(self.has(seqno) && self.has(next) && seqno <= next);
            assert(!self.published[next].before(self.published[seqno]));
        }
    }
}

impl Feed {
    /// What a search knows besides, on a feed whose record 0 is dated before the
    /// target: bracketing starts and ends with the probe 0, and a sequence number
    /// that ends the search is that of a record dated before the target.
    spec fn anchored(self, target: Timestamp, phase: Phase) -> bool {
        match phase {
            Phase::Bracketing { upper, probe } => probe == 0,
            Phase::Resolved { seqno } => self.published[seqno].before(target),
            _ => true,
        }
    }

    /// A search on a valid feed keeps what `anchored` says, where the feed's
    /// record 0 is dated before the target; and on a complete feed it does not fail.
    proof fn lemma_run_anchored(self, target: Timestamp, phase: Phase)
        requires
            self.valid(),
            self.has(0),
            self.published[0].before(target),
            phase.wf(),
            self.sound(target, phase),
            self.anchored(target, phase),
            !(phase is Failed),
        ensures
            self.anchored(target, self.run(target, phase)),
            self.complete() ==> !(self.run(target, phase) is Failed),
        decreases phase.rank(), phase.distance(),
    {
        if !phase.ended() {
            let next = phase.step(target, self.answer(phase));
            lemma_step_wf(phase, target, self.answer(phase));
            self.lemma_step_sound(target, phase);
            match phase {
                Phase::Narrowing { lower, upper, guess } => {
                    assert(self.has(upper.seqno));
                    if self.complete() {
                        assert(self.has(guess));
                    }
                },
                Phase::Bracketing { upper, probe } => {
                    assert(self.has(probe));
                },
                _ => {},
            }
            if !(next is Failed) {
                self.lemma_run_anchored(target, next);
            }
        }
    }

    /// On a valid feed whose record 0 is dated before the target, the record
    /// that a search names is dated before the target.
    pub proof fn lemma_anchored_search_names_earlier_record(self, target: Timestamp, seqno: u64)
        requires
            self.valid(),
            self.has(0),
            self.published[0].before(target),
            self.resolve(target) == (Phase::Resolved { seqno }),
        ensures
            self.has(seqno),
            self.published[seqno].before(target),
    {
        self.lemma_run_sound(target, Phase::Current);
        self.lemma_run_anchored(target, Phase::Current);
    }

    /// On a valid feed that has all its records, the first of them dated before
    /// the target and none dated exactly at it, a search finds the record that was
    /// current at the target: the one dated before the target that no record
    /// follows or whose follower is dated after the target.
    pub proof fn lemma_complete_feed_resolves(self, target: Timestamp)
        requires
            self.valid(),
            self.complete(),
            self.published[0].before(target),
            forall|seqno: u64| #[trigger] self.has(seqno) ==> self.published[seqno] != target,
        ensures
            self.resolve(target) matches Phase::Resolved { seqno } && {
                &&& self.has(seqno)
                &&& self.published[seqno].before(target)
                &&& self.follower(seqno) matches Some(next) ==> target.before(self.published[next])
            },
    {
        assert(self.has(0));
        self.lemma_search_ends(target);
        self.lemma_run_sound(target, Phase::Current);
        self.lemma_run_anchored(target, Phase::Current);
        let seqno = self.resolve(target)->seqno;
        if let Some(next) = self.follower(seqno) {
            assert(self.has(next));
            assert(seqno != self.current);
        }
    }
}

} // verus!
