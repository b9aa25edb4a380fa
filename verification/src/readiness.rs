//! Waiting for the first result cards of a page.
//!
//! After navigation a page is probed for its number of result cards at a
//! fixed interval until one is there or the attempts are used up. The
//! waiter decides; whoever drives the browser probes and sleeps.

use vstd::prelude::*;

verus! {

/// How often a page is probed at most.
pub const POLL_ATTEMPTS: u32 = 20;

/// Milliseconds between two probes.
pub const POLL_INTERVAL_MS: u64 = 500;

/// Progress is reported on every attempt whose number is a multiple of
/// this.
pub const PROGRESS_EVERY: u32 = 4;

/// Whether a probe found a card. A probe that failed or gave no number
/// found none.
pub open spec fn found_card(outcome: Option<i64>) -> bool {
    outcome matches Some(count) && count >= 1
}

/// What to do after a probe.
#[derive(Debug, Clone, Copy, PartialEq, Eq, Structural)]
pub enum WaitStep {
    /// Cards are there: go on with the page.
    Ready,
    /// Sleep for the interval, then probe again. `report` holds the count
    /// to report as progress, on the attempts on which progress is
    /// reported.
    Retry { report: Option<i64> },
    /// Sleep for the interval, then go on with the page as it is: the
    /// attempts are used up.
    GiveUp { report: Option<i64> },
}

/// The state of waiting as plain values.
pub struct WaitState {
    /// Probes seen so far.
    pub attempts: nat,
    /// Whether a probe found a card.
    pub ready: bool,
}

impl WaitState {
    /// Whether waiting has ended.
    pub open spec fn finished(self) -> bool {
        self.ready || self.attempts >= POLL_ATTEMPTS
    }

    /// The progress to report after the next probe, if it finds no card.
    pub open spec fn report(self, outcome: Option<i64>) -> Option<i64> {
        if outcome is Some && (self.attempts + 1) % (PROGRESS_EVERY as nat) == 0 {
            outcome
        } else {
            None
        }
    }

    /// What to do after the next probe.
    pub open spec fn step(self, outcome: Option<i64>) -> WaitStep {
        if found_card(outcome) {
            WaitStep::Ready
        } else if self.attempts + 1 >= POLL_ATTEMPTS {
            WaitStep::GiveUp { report: self.report(outcome) }
        } else {
            WaitStep::Retry { report: self.report(outcome) }
        }
    }

    /// The state after the next probe.
    pub open spec fn after(self, outcome: Option<i64>) -> WaitState {
        WaitState { attempts: self.attempts + 1, ready: found_card(outcome) }
    }

    /// The state after the probes `outcomes[..n]`, taken while waiting has
    /// not ended.
    pub open spec fn run(self, outcomes: Seq<Option<i64>>, n: int) -> WaitState
        decreases n,
    {
        if n <= 0 || n > outcomes.len() {
            self
        } else {
            let before = self.run(outcomes, n - 1);
            if before.finished() {
                before
            } else {
                before.after(outcomes[n - 1])
            }
        }
    }
}

/// The position of the first of `outcomes[..n]` that found a card.
pub open spec fn first_found(outcomes: Seq<Option<i64>>, n: int) -> Option<int>
    decreases n,
{
    if n <= 0 || n > outcomes.len() {
        None
    } else {
        match first_found(outcomes, n - 1) {
            Some(i) => Some(i),
            None => if found_card(outcomes[n - 1]) {
                Some(n - 1)
            } else {
                None
            },
        }
    }
}

/// The smaller of two numbers.
pub open spec fn smaller(a: int, b: int) -> int {
    if a <= b {
        a
    } else {
        b
    }
}

/// Waiting ends as ready exactly if one of the first probes, as many as
/// there are attempts, finds a card; it then has taken the probes up to
/// that one. Otherwise it takes every probe up to the last attempt.
pub proof fn lemma_wait_outcome(outcomes: Seq<Option<i64>>, n: int)
    requires
        0 <= n <= outcomes.len(),
    ensures
        ({
            let start = WaitState { attempts: 0, ready: false };
            let end = start.run(outcomes, n);
            let window = smaller(n, POLL_ATTEMPTS as int);
            match first_found(outcomes, window) {
                Some(i) => end.ready && end.attempts == i + 1,
                None => !end.ready && end.attempts == window,
            }
        }),
    decreases n,
{
    if n > 0 {
        lemma_wait_outcome(outcomes, n - 1);
        let start = WaitState { attempts: 0, ready: false };
        let before = start.run(outcomes, n - 1);
        if n - 1 < POLL_ATTEMPTS {
            assert(smaller(n - 1, POLL_ATTEMPTS as int) == n - 1);
            assert(smaller(n, POLL_ATTEMPTS as int) == n);
        } else {
            assert(smaller(n - 1, POLL_ATTEMPTS as int) == smaller(n, POLL_ATTEMPTS as int));
        }
    }
}

/// Decides, probe by probe, how long to wait for the result cards.
#[derive(Debug)]
pub struct ReadinessWaiter {
    attempts: u32,
    ready: bool,
}

impl View for ReadinessWaiter {
    type V = WaitState;

    closed spec fn view(&self) -> WaitState {
        WaitState { attempts: self.attempts as nat, ready: self.ready }
    }
}

impl ReadinessWaiter {
    /// Whether the waiter holds a count that it can reach.
    #[verifier::type_invariant]
    pub closed spec fn within_attempts(&self) -> bool {
        self.attempts <= POLL_ATTEMPTS
    }

    /// A waiter that has seen no probe.
    pub fn new() -> (waiter: Self)
        ensures
            waiter@ == (WaitState { attempts: 0, ready: false }),
    {
        ReadinessWaiter { attempts: 0, ready: false }
    }

    /// Whether a probe found a card.
    pub fn is_ready(&self) -> (ready: bool)
        ensures
            ready == self@.ready,
    {
        self.ready
    }

    /// How many probes were seen.
    pub fn attempts(&self) -> (attempts: u32)
        ensures
            attempts == self@.attempts,
    {
        self.attempts
    }

    /// Whether waiting has ended: a probe found a card, or the attempts
    /// are used up.
    pub fn is_finished(&self) -> (finished: bool)
        ensures
            finished == self@.finished(),
    {
        self.ready || self.attempts >= POLL_ATTEMPTS
    }

    /// Takes the outcome of one probe, the number of cards or `None` where
    /// the probe failed, and says what to do next. Once waiting has ended
    /// further outcomes change nothing.
    pub fn observe(&mut self, outcome: Option<i64>) -> (step: WaitStep)
        ensures
            !old(self)@.finished() ==> final(self)@ == old(self)@.after(outcome) && step == old(
                self,
            )@.step(outcome),
            old(self)@.finished() ==> final(self)@ == old(self)@ && step == (if old(self)@.ready {
                WaitStep::Ready
            } else {
                WaitStep::GiveUp { report: None }
            }),
    {
        proof {
            use_type_invariant(&*self);
        }
        if self.ready {
            return WaitStep::Ready;
        }
        if self.attempts >= POLL_ATTEMPTS {
            return WaitStep::GiveUp { report: None };
        }
        let attempt = self.attempts + 1;
        let found = match outcome {
            Some(count) => count >= 1,
            None => false,
        };
        let report = if !found && outcome.is_some() && attempt % PROGRESS_EVERY == 0 {
            outcome
        } else {
            None
        };
        self.attempts = attempt;
        self.ready = found;
        if found {
            WaitStep::Ready
        } else if attempt >= POLL_ATTEMPTS {
            WaitStep::GiveUp { report }
        } else {
            WaitStep::Retry { report }
        }
    }
}

/// How waiting went.
#[derive(Debug, Clone, Copy, PartialEq, Eq, Structural)]
pub struct WaitReport {
    /// Whether cards were found.
    pub ready: bool,
    /// How many probes were taken.
    pub probes: u32,
}

/// Waits on a page whose probes give `outcomes` one after the other, and
/// reports how waiting ends. Cards are found exactly if one of the first
/// twenty outcomes shows a card; the probes then end with that one.
pub fn wait_through(outcomes: &Vec<Option<i64>>) -> (report: WaitReport)
    ensures
        match first_found(outcomes@, smaller(outcomes@.len() as int, POLL_ATTEMPTS as int)) {
            Some(i) => report.ready && report.probes == i + 1,
            None => !report.ready && report.probes == smaller(
                outcomes@.len() as int,
                POLL_ATTEMPTS as int,
            ),
        },
{
    let mut waiter = ReadinessWaiter::new();
    let ghost start = waiter@;
    let mut i: usize = 0;
    while i < outcomes.len() && !waiter.is_finished()
        invariant
            i <= outcomes@.len(),
            start == (WaitState { attempts: 0, ready: false }),
            waiter@ == start.run(outcomes@, i as int),
        decreases outcomes@.len() - i,
    {
        waiter.observe(outcomes[i]);
        i += 1;
    }
    proof {
        lemma_run_stays(start, outcomes@, i as int, outcomes@.len() as int);
        lemma_wait_outcome(outcomes@, outcomes@.len() as int);
    }
    WaitReport { ready: waiter.is_ready(), probes: waiter.attempts() }
}

/// Once waiting has ended, or the outcomes are used up, more outcomes
/// change nothing.
proof fn lemma_run_stays(start: WaitState, outcomes: Seq<Option<i64>>, m: int, n: int)
    requires
        0 <= m <= n <= outcomes.len(),
        start.run(outcomes, m).finished() || m == outcomes.len(),
    ensures
        start.run(outcomes, n) == start.run(outcomes, m),
    decreases n - m,
{
    if m < n {
        lemma_run_stays(start, outcomes, m, n - 1);
    }
}

} // verus!
