//! Connectivity hysteresis: folds probe outcomes into a two-state machine and
//! maps the state to the indicator, the relay and the polling interval.
use vstd::prelude::*;

verus! {

/// Number of failed probes in a row that a healthy link tolerates.
pub const MAX_BAD_EVENTS: u32 = 3;

/// Polling interval once the link is healthy and settled.
pub const LONG_POLL_MS: u32 = 300_000;

/// Polling interval while failures accumulate or the link is down.
pub const SHORT_POLL_MS: u32 = 60_000;

#[derive(Debug, Clone, Copy, PartialEq, Eq, Structural)]
pub enum State {
    Good,
    Bad,
}

/// Connectivity state together with the count of failed probes seen while `Good`.
#[derive(Debug, Clone, Copy, PartialEq, Eq, Structural)]
pub struct Monitor {
    pub state: State,
    pub bad_events: u32,
}

/// What the hardware outputs show after a cycle.
#[derive(Debug, Clone, Copy, PartialEq, Eq, Structural)]
pub struct Outputs {
    /// The indicator shows "healthy".
    pub healthy: bool,
    /// The relay is asserted (load cut).
    pub relay_asserted: bool,
    /// Delay before the next probe.
    pub poll_interval_ms: u32,
}

/// The state after one probe with outcome `probe_ok`.
pub open spec fn next_state(m: Monitor, probe_ok: bool) -> Monitor {
    if probe_ok {
        Monitor { state: State::Good, bad_events: 0 }
    } else if m.state == State::Bad {
        m
    } else if m.bad_events + 1 >= MAX_BAD_EVENTS {
        Monitor { state: State::Bad, bad_events: 0 }
    } else {
        Monitor { state: State::Good, bad_events: (m.bad_events + 1) as u32 }
    }
}

/// The state after a run of probes with the given outcomes, in order.
pub open spec fn run(m: Monitor, outcomes: Seq<bool>) -> Monitor
    decreases outcomes.len(),
{
    if outcomes.len() == 0 {
        m
    } else {
        run(next_state(m, outcomes[0]), outcomes.drop_first())
    }
}

/// The outputs that a state maps to.
pub open spec fn outputs_of(m: Monitor) -> Outputs {
    Outputs {
        healthy: m.state == State::Good,
        relay_asserted: m.state == State::Bad,
        poll_interval_ms: if m.state == State::Good && m.bad_events == 0 {
            LONG_POLL_MS
        } else {
            SHORT_POLL_MS
        },
    }
}

impl Monitor {
    /// The counter stays below the threshold, and is zero while `Bad`.
    pub open spec fn wf(self) -> bool {
        &&& self.bad_events < MAX_BAD_EVENTS
        &&& self.state == State::Bad ==> self.bad_events == 0
    }

    /// The state at boot: connectivity is unproven, so `Bad` with no events.
    pub fn new() -> (r: Monitor)
        ensures
            r == (Monitor { state: State::Bad, bad_events: 0 }),
            r.wf(),
    {
        Monitor { state: State::Bad, bad_events: 0 }
    }

    /// Folds one probe outcome into the state.
    pub fn record(&mut self, probe_ok: bool)
        requires
            old(self).wf(),
        ensures
            *final(self) == next_state(*old(self), probe_ok),
            final(self).wf(),
    {
        if probe_ok {
            self.state = State::Good;
            self.bad_events = 0;
        } else if self.state == State::Good {
            if self.bad_events + 1 >= MAX_BAD_EVENTS {
                self.state = State::Bad;
                self.bad_events = 0;
            } else {
                self.bad_events = self.bad_events + 1;
            }
        }
    }

    /// Indicator, relay and polling interval for the current state.
    pub fn outputs(&self) -> (r: Outputs)
        ensures
            r == outputs_of(*self),
    {
        let good = self.state == State::Good;
        Outputs {
            healthy: good,
            relay_asserted: !good,
            poll_interval_ms: if good && self.bad_events == 0 {
                LONG_POLL_MS
            } else {
                SHORT_POLL_MS
            },
        }
    }
}

/// A successful probe forces `Good` with a cleared counter, from any state.
pub proof fn lemma_success_resets(m: Monitor)
    ensures
        next_state(m, true) == (Monitor { state: State::Good, bad_events: 0 }),
{
}

/// From a settled `Good` state, three failed probes in a row lead to `Bad`
/// with a cleared counter, and fewer leave the link `Good`.
pub proof fn lemma_three_failures_trip(m: Monitor)
    requires
        m == (Monitor { state: State::Good, bad_events: 0 }),
    ensures
        run(m, seq![false]) == (Monitor { state: State::Good, bad_events: 1 }),
        run(m, seq![false, false]) == (Monitor { state: State::Good, bad_events: 2 }),
        run(m, seq![false, false, false]) == (Monitor { state: State::Bad, bad_events: 0 }),
        outputs_of(run(m, seq![false, false, false])).relay_asserted,
{
    reveal_with_fuel(run, 4);
    assert(seq![false].drop_first() =~= Seq::<bool>::empty());
    assert(seq![false, false].drop_first() =~= seq![false]);
    assert(seq![false, false, false].drop_first() =~= seq![false, false]);
}

/// Failed probes never move a `Bad` link, however many there are.
pub proof fn lemma_bad_stays_bad(m: Monitor, failures: nat)
    requires
        m == (Monitor { state: State::Bad, bad_events: 0 }),
    ensures
        run(m, Seq::new(failures, |i: int| false)) == m,
    decreases failures,
{
    let s = Seq::new(failures, |i: int| false);
    if failures > 0 {
        assert(s.drop_first() =~= Seq::new((failures - 1) as nat, |i: int| false));
        lemma_bad_stays_bad(m, (failures - 1) as nat);
    }
}

/// Every run of probes keeps the state well formed.
pub proof fn lemma_run_wf(m: Monitor, outcomes: Seq<bool>)
    requires
        m.wf(),
    ensures
        run(m, outcomes).wf(),
    decreases outcomes.len(),
{
    if outcomes.len() > 0 {
        lemma_run_wf(next_state(m, outcomes[0]), outcomes.drop_first());
    }
}

} // verus!
