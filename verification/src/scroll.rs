//! Scrolling a page until it has loaded all of its result cards.
//!
//! A result grid that loads on scroll grows as the page is scrolled to
//! its bottom. Round by round the page is scrolled and its cards are
//! counted; when the count has stayed the same for two rounds in a row
//! the page is taken to be complete. Two quiet rounds are a threshold
//! that trades completeness against time, not a proof that nothing more
//! would come.

use vstd::prelude::*;
use crate::readiness::smaller;

verus! {

/// How many rounds a page is scrolled at most.
pub const SCROLL_ROUNDS: u32 = 8;

/// After how many rounds in a row without change scrolling ends.
pub const STABLE_ROUNDS: u32 = 2;

/// Milliseconds to let the page settle between a scroll and the count.
pub const SCROLL_SETTLE_MS: u64 = 800;

/// Milliseconds to rest between two rounds.
pub const SCROLL_PAUSE_MS: u64 = 400;

/// Milliseconds to let the page settle after the scroll back to the top.
pub const TOP_SETTLE_MS: u64 = 500;

/// What to do after the count of a round.
#[derive(Debug, Clone, Copy, PartialEq, Eq, Structural)]
pub enum ScrollStep {
    /// Rest, then scroll and count once more.
    Again,
    /// Scroll back to the top and take the page as it is.
    Stop,
}

/// The state of scrolling as plain values.
pub struct ScrollState {
    /// Rounds counted so far.
    pub rounds: nat,
    /// The count of the last round; zero before the first.
    pub previous: nat,
    /// For how many rounds in a row the count has not changed.
    pub stable: nat,
}

impl ScrollState {
    /// The state before the first round.
    pub open spec fn start() -> ScrollState {
        ScrollState { rounds: 0, previous: 0, stable: 0 }
    }

    /// Whether the count has been stable for long enough.
    pub open spec fn settled(self) -> bool {
        self.stable >= STABLE_ROUNDS
    }

    /// Whether scrolling has ended.
    pub open spec fn finished(self) -> bool {
        self.settled() || self.rounds >= SCROLL_ROUNDS
    }

    /// The state after a round that counted `count` cards. A count that
    /// repeats the last one and is not zero adds a stable round; any other
    /// count starts anew.
    pub open spec fn after(self, count: nat) -> ScrollState {
        if count == self.previous && count > 0 {
            ScrollState { rounds: self.rounds + 1, previous: count, stable: self.stable + 1 }
        } else {
            ScrollState { rounds: self.rounds + 1, previous: count, stable: 0 }
        }
    }

    /// The state after the rounds with the counts `counts[..n]`, taken
    /// while scrolling has not ended.
    pub open spec fn run(self, counts: Seq<usize>, n: int) -> ScrollState
        decreases n,
    {
        if n <= 0 || n > counts.len() {
            self
        } else {
            let before = self.run(counts, n - 1);
            if before.finished() {
                before
            } else {
                before.after(counts[n - 1] as nat)
            }
        }
    }
}

/// Whether round `r`, counted from zero, is the second in a row that
/// repeats the count before it: the counts of the rounds `r - 2`, `r - 1`
/// and `r` are the same and not zero.
pub open spec fn settles_at(counts: Seq<usize>, r: int) -> bool {
    2 <= r < counts.len() && counts[r] > 0 && counts[r] == counts[r - 1] && counts[r - 1]
        == counts[r - 2]
}

/// The first round among the first `n` at which the count settles.
pub open spec fn first_settled(counts: Seq<usize>, n: int) -> Option<int>
    decreases n,
{
    if n <= 0 || n > counts.len() {
        None
    } else {
        match first_settled(counts, n - 1) {
            Some(r) => Some(r),
            None => if settles_at(counts, n - 1) {
                Some(n - 1)
            } else {
                None
            },
        }
    }
}

/// How the state after some rounds hangs on their counts.
proof fn lemma_scroll_state(counts: Seq<usize>, n: int)
    requires
        0 <= n <= counts.len(),
        n <= SCROLL_ROUNDS,
        first_settled(counts, n - 1) is None,
    ensures
        ({
            let end = ScrollState::start().run(counts, n);
            &&& end.rounds == n
            &&& n > 0 ==> end.previous == counts[n - 1]
            &&& n == 0 ==> end.previous == 0 && end.stable == 0
            &&& end.stable <= 2
            &&& end.stable >= 1 <==> n >= 2 && counts[n - 1] > 0 && counts[n - 1] == counts[n - 2]
            &&& end.stable >= 2 <==> settles_at(counts, n - 1)
        }),
    decreases n,
{
    if n > 0 {
        assert(first_settled(counts, n - 2) is None);
        lemma_scroll_state(counts, n - 1);
    }
}

/// Scrolling ends early exactly if, within the rounds allowed, the count
/// of a round is the second in a row to repeat the count before it; it
/// then ends with that round. Otherwise every round is taken.
pub proof fn lemma_scroll_outcome(counts: Seq<usize>, n: int)
    requires
        0 <= n <= counts.len(),
    ensures
        ({
            let end = ScrollState::start().run(counts, n);
            let window = smaller(n, SCROLL_ROUNDS as int);
            match first_settled(counts, window) {
                Some(r) => end.settled() && end.rounds == r + 1,
                None => !end.settled() && end.rounds == window,
            }
        }),
    decreases n,
{
    if n > 0 {
        lemma_scroll_outcome(counts, n - 1);
        let before = ScrollState::start().run(counts, n - 1);
        if n - 1 < SCROLL_ROUNDS {
            assert(smaller(n - 1, SCROLL_ROUNDS as int) == n - 1);
            assert(smaller(n, SCROLL_ROUNDS as int) == n);
            if first_settled(counts, n - 1) is None {
                lemma_scroll_state(counts, n);
            }
        } else {
            assert(smaller(n - 1, SCROLL_ROUNDS as int) == smaller(n, SCROLL_ROUNDS as int));
        }
    }
}

/// Decides, round by round, whether a page is scrolled once more.
#[derive(Debug)]
pub struct ScrollExpander {
    rounds: u32,
    previous: usize,
    stable: u32,
}

impl View for ScrollExpander {
    type V = ScrollState;

    closed spec fn view(&self) -> ScrollState {
        ScrollState {
            rounds: self.rounds as nat,
            previous: self.previous as nat,
            stable: self.stable as nat,
        }
    }
}

impl ScrollExpander {
    /// Whether the expander holds counts that it can reach.
    #[verifier::type_invariant]
    pub closed spec fn within_rounds(&self) -> bool {
        self.rounds <= SCROLL_ROUNDS && self.stable <= STABLE_ROUNDS
    }

    /// An expander before the first round.
    pub fn new() -> (expander: Self)
        ensures
            expander@ == ScrollState::start(),
    {
        ScrollExpander { rounds: 0, previous: 0, stable: 0 }
    }

    /// How many rounds were counted.
    pub fn rounds(&self) -> (rounds: u32)
        ensures
            rounds == self@.rounds,
    {
        self.rounds
    }

    /// Whether the count has been stable for long enough.
    pub fn is_settled(&self) -> (settled: bool)
        ensures
            settled == self@.settled(),
    {
        self.stable >= STABLE_ROUNDS
    }

    /// Whether scrolling has ended: the count has settled, or the rounds
    /// are used up.
    pub fn is_finished(&self) -> (finished: bool)
        ensures
            finished == self@.finished(),
    {
        self.stable >= STABLE_ROUNDS || self.rounds >= SCROLL_ROUNDS
    }

    /// Takes the number of cards counted after one scroll, zero where the
    /// count failed, and says whether to scroll once more. Once scrolling
    /// has ended further counts change nothing.
    pub fn observe(&mut self, count: usize) -> (step: ScrollStep)
        ensures
            !old(self)@.finished() ==> final(self)@ == old(self)@.after(count as nat),
            old(self)@.finished() ==> final(self)@ == old(self)@,
            step == (if final(self)@.finished() {
                ScrollStep::Stop
            } else {
                ScrollStep::Again
            }),
    {
        proof {
            use_type_invariant(&*self);
        }
        if self.stable >= STABLE_ROUNDS || self.rounds >= SCROLL_ROUNDS {
            return ScrollStep::Stop;
        }
        if count == self.previous && count > 0 {
            self.stable = self.stable + 1;
        } else {
            self.stable = 0;
        }
        self.previous = count;
        self.rounds = self.rounds + 1;
        if self.stable >= STABLE_ROUNDS || self.rounds >= SCROLL_ROUNDS {
            ScrollStep::Stop
        } else {
            ScrollStep::Again
        }
    }
}

/// How scrolling went.
#[derive(Debug, Clone, Copy, PartialEq, Eq, Structural)]
pub struct ScrollReport {
    /// Whether scrolling ended because the count had settled.
    pub settled: bool,
    /// How many rounds were taken.
    pub rounds: u32,
}

/// Scrolls a page whose rounds count `counts` one after the other, and
/// reports how scrolling ends. It ends early exactly if, within the eight
/// rounds, a count is the second in a row to repeat the count before it.
pub fn scroll_through(counts: &Vec<usize>) -> (report: ScrollReport)
    ensures
        match first_settled(counts@, smaller(counts@.len() as int, SCROLL_ROUNDS as int)) {
            Some(r) => report.settled && report.rounds == r + 1,
            None => !report.settled && report.rounds == smaller(
                counts@.len() as int,
                SCROLL_ROUNDS as int,
            ),
        },
{
    let mut expander = ScrollExpander::new();
    let ghost start = expander@;
    let mut i: usize = 0;
    while i < counts.len() && !expander.is_finished()
        invariant
            i <= counts@.len(),
            start == ScrollState::start(),
            expander@ == start.run(counts@, i as int),
        decreases counts@.len() - i,
    {
        expander.observe(counts[i]);
        i += 1;
    }
    proof {
        lemma_run_stays(start, counts@, i as int, counts@.len() as int);
        lemma_scroll_outcome(counts@, counts@.len() as int);
    }
    ScrollReport { settled: expander.is_settled(), rounds: expander.rounds() }
}

/// Once scrolling has ended, or the counts are used up, more counts
/// change nothing.
proof fn lemma_run_stays(start: ScrollState, counts: Seq<usize>, m: int, n: int)
    requires
        0 <= m <= n <= counts.len(),
        start.run(counts, m).finished() || m == counts.len(),
    ensures
        start.run(counts, n) == start.run(counts, m),
    decreases n - m,
{
    if m < n {
        lemma_run_stays(start, counts, m, n - 1);
    }
}

} // verus!
