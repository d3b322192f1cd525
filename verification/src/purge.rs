//! The bounded drain used to purge a queue. The loop around the
//! destructive receive lives with the transport; what is here is the
//! whole of its decision logic: a state machine that counts iterations
//! and consecutive empty receives, and stops after three consecutive
//! empty or timed-out attempts or at a hard cap of one hundred
//! iterations, whatever the server does. Purging is best-effort and
//! non-transactional: messages arriving while the drain runs may or may
//! not be removed.

use vstd::prelude::*;

verus! {

/// Messages requested per destructive receive batch.
pub const PURGE_BATCH_SIZE: u32 = 100;

/// Seconds granted to each receive attempt.
pub const PURGE_RECEIVE_TIMEOUT_SECONDS: u64 = 5;

/// Consecutive empty or timed-out receives after which the drain stops.
pub const PURGE_EMPTY_LIMIT: u32 = 3;

/// Hard cap on receive iterations, guaranteeing termination even
/// against a server that never stops producing messages.
pub const PURGE_MAX_ITERATIONS: u32 = 100;

/// What one receive attempt yielded: some messages (possibly none), or
/// nothing before the timeout. A timeout counts as an empty receive.
#[derive(Clone, Copy, Debug, PartialEq, Eq, Structural)]
pub enum ReceiveOutcome {
    Received(u32),
    TimedOut,
}

/// Messages removed by this outcome.
pub open spec fn outcome_count(ev: ReceiveOutcome) -> int {
    match ev {
        ReceiveOutcome::Received(n) => n as int,
        ReceiveOutcome::TimedOut => 0,
    }
}

/// Progress of one purge run.
#[derive(Clone, Copy, Debug, PartialEq, Eq, Structural)]
pub struct PurgeState {
    pub iterations: u32,
    pub consecutive_empty: u32,
    pub removed: u64,
    pub done: bool,
}

/// The state a purge starts in.
pub open spec fn purge_init() -> PurgeState {
    PurgeState { iterations: 0, consecutive_empty: 0, removed: 0, done: false }
}

/// The state after absorbing one receive outcome: the iteration count
/// rises by one, the removed count by the messages received, and the
/// run is done once three receives in a row were empty or the iteration
/// cap is reached.
pub open spec fn purge_step_spec(s: PurgeState, ev: ReceiveOutcome) -> PurgeState {
    let got = outcome_count(ev);
    let iterations = (s.iterations + 1) as u32;
    let consecutive_empty = if got == 0 {
        (s.consecutive_empty + 1) as u32
    } else {
        0u32
    };
    PurgeState {
        iterations,
        consecutive_empty,
        removed: (s.removed + got) as u64,
        done: consecutive_empty >= PURGE_EMPTY_LIMIT || iterations >= PURGE_MAX_ITERATIONS,
    }
}

impl PurgeState {
    /// Bounds every reachable state satisfies: the iteration count never
    /// passes the cap, an unfinished run has iterations left, the empty
    /// streak never exceeds the iterations, the removed count is bounded
    /// by what the iterations could have carried, and `done` is exactly
    /// the stop condition.
    pub open spec fn wf(&self) -> bool {
        &&& self.iterations <= PURGE_MAX_ITERATIONS
        &&& (!self.done ==> self.iterations < PURGE_MAX_ITERATIONS)
        &&& self.consecutive_empty <= self.iterations
        &&& self.removed <= self.iterations * (u32::MAX as int)
        &&& self.done == (self.consecutive_empty >= PURGE_EMPTY_LIMIT || self.iterations
            >= PURGE_MAX_ITERATIONS)
    }

    pub fn new() -> (r: PurgeState)
        ensures
            r == purge_init(),
            r.wf(),
    {
        PurgeState { iterations: 0, consecutive_empty: 0, removed: 0, done: false }
    }

    /// Absorb one receive outcome.
    pub fn step(&mut self, ev: ReceiveOutcome)
        requires
            old(self).wf(),
            !old(self).done,
        ensures
            *final(self) == purge_step_spec(*old(self), ev),
            final(self).wf(),
    {
        proof {
            lemma_purge_step_wf(*self, ev);
        }
        let ghost pre = *self;
        let got: u32 = match ev {
            ReceiveOutcome::Received(n) => n,
            ReceiveOutcome::TimedOut => 0,
        };
        self.iterations = self.iterations + 1;
        if got == 0 {
            self.consecutive_empty = self.consecutive_empty + 1;
        } else {
            self.consecutive_empty = 0;
        }
        proof {
            assert(pre.removed + got <= 100 * (u32::MAX as int));
        }
        self.removed = self.removed + (got as u64);
        self.done = self.consecutive_empty >= PURGE_EMPTY_LIMIT || self.iterations
            >= PURGE_MAX_ITERATIONS;
    }
}

/// Stepping preserves well-formedness.
proof fn lemma_purge_step_wf(s: PurgeState, ev: ReceiveOutcome)
    requires
        s.wf(),
        !s.done,
    ensures
        purge_step_spec(s, ev).wf(),
        s.removed + outcome_count(ev) <= 100 * (u32::MAX as int),
{
    let got = outcome_count(ev);
    let it = s.iterations as int;
    assert(s.removed + got <= it * (u32::MAX as int) + (u32::MAX as int));
    assert(it * (u32::MAX as int) + (u32::MAX as int) == (it + 1) * (u32::MAX as int))
        by (nonlinear_arith);
    assert((it + 1) * (u32::MAX as int) <= 100 * (u32::MAX as int)) by (nonlinear_arith)
        requires it + 1 <= 100;
}

/// The state a purge reaches after absorbing outcomes in order, stopping
/// as soon as it is done.
pub open spec fn purge_run(s: PurgeState, evs: Seq<ReceiveOutcome>) -> PurgeState
    decreases evs.len(),
{
    if s.done || evs.len() == 0 {
        s
    } else {
        purge_run(purge_step_spec(s, evs[0]), evs.drop_first())
    }
}

proof fn lemma_purge_run_done(s: PurgeState, evs: Seq<ReceiveOutcome>)
    requires
        s.wf(),
        evs.len() >= PURGE_MAX_ITERATIONS - s.iterations,
    ensures
        purge_run(s, evs).done,
    decreases evs.len(),
{
    if !s.done && evs.len() > 0 {
        lemma_purge_step_wf(s, evs[0]);
        lemma_purge_run_done(purge_step_spec(s, evs[0]), evs.drop_first());
    }
}

/// A purge always terminates within the iteration cap: whatever the
/// server keeps returning — even an endless stream of full batches —
/// after at most one hundred receive attempts the run is done, with a
/// finite removed count.
pub proof fn lemma_purge_terminates(evs: Seq<ReceiveOutcome>)
    requires
        evs.len() >= PURGE_MAX_ITERATIONS,
    ensures
        purge_run(purge_init(), evs).done,
{
    lemma_purge_run_done(purge_init(), evs);
}

/// Run the drain's decision logic over a pre-recorded list of receive
/// outcomes, as the transport loop would. Outcomes beyond the point
/// where the run is done are not consumed.
pub fn drain_outcomes(events: &Vec<ReceiveOutcome>) -> (r: PurgeState)
    ensures
        r == purge_run(purge_init(), events@),
        r.wf(),
{
    let mut state = PurgeState::new();
    let mut i: usize = 0;
    proof {
        assert(events@.skip(0) =~= events@);
    }
    while i < events.len() && !state.done
        invariant
            i <= events@.len(),
            state.wf(),
            purge_run(purge_init(), events@) == purge_run(state, events@.skip(i as int)),
        decreases events@.len() - i,
    {
        let ev = events[i];
        proof {
            assert(events@.skip(i as int)[0] == events@[i as int]);
            assert(events@.skip(i as int).drop_first() =~= events@.skip(i + 1));
        }
        state.step(ev);
        i = i + 1;
    }
    proof {
        if !state.done {
            assert(events@.skip(i as int) =~= Seq::<ReceiveOutcome>::empty());
        }
    }
    state
}

} // verus!
