//! Bringing a search page into the state in which it is read.
//!
//! A page is opened in a tab of its own, given time to build its frame,
//! polled until result cards are there, scrolled until it has loaded what
//! it loads on scroll, scrolled back to the top and captured. The session
//! decides each step from the outcome of the step before; whoever drives
//! the browser carries the steps out. Only failures of the browser end a
//! session early: a page that never shows a card is captured as it is.

use vstd::prelude::*;
use vstd::string::StringExecFns;
use crate::config::PAGE_LOAD_TIMEOUT_SECS;
use crate::profile::Site;
use crate::readiness::{ReadinessWaiter, WaitState, WaitStep, POLL_ATTEMPTS, POLL_INTERVAL_MS};
use crate::scroll::{
    ScrollExpander, ScrollState, ScrollStep, SCROLL_PAUSE_MS, SCROLL_ROUNDS, SCROLL_SETTLE_MS,
    TOP_SETTLE_MS,
};

verus! {

/// What differs between the sites in how a page is brought up.
#[derive(Debug, Clone, Copy, PartialEq, Eq, Structural)]
pub struct FetchPlan {
    /// The site whose page is brought up.
    pub site: Site,
    /// Whether the title of the page is read after navigation, as a test
    /// that the page answers.
    pub checks_title: bool,
    /// Milliseconds given to the page to build its frame before it is
    /// polled.
    pub first_wait_ms: u64,
}

/// Why a page could not be had.
#[derive(Debug)]
pub enum FetchError {
    /// No tab could be opened.
    Tab(String),
    /// The browser could not go to the address.
    Navigation(String),
    /// The page did not answer.
    Page(String),
    /// The markup of the page could not be read.
    Content(String),
    /// The markup of the page was asked for and something else came.
    Unanswered,
}

/// How Tokopedia pages are brought up.
pub open spec fn tokopedia_plan() -> FetchPlan {
    FetchPlan { site: Site::Tokopedia, checks_title: true, first_wait_ms: 3000 }
}

/// How Blibli pages are brought up.
pub open spec fn blibli_plan() -> FetchPlan {
    FetchPlan { site: Site::Blibli, checks_title: false, first_wait_ms: 4000 }
}

impl FetchPlan {
    /// How Tokopedia pages are brought up.
    pub fn tokopedia() -> (plan: Self)
        ensures
            plan == tokopedia_plan(),
    {
        FetchPlan { site: Site::Tokopedia, checks_title: true, first_wait_ms: 3000 }
    }

    /// How Blibli pages are brought up.
    pub fn blibli() -> (plan: Self)
        ensures
            plan == blibli_plan(),
    {
        FetchPlan { site: Site::Blibli, checks_title: false, first_wait_ms: 4000 }
    }
}

/// What a caller is told of a failure on a page of `site`.
pub open spec fn failure_text(error: FetchError, site: Site) -> Seq<char> {
    match error {
        FetchError::Tab(_) => "Failed to create new tab"@,
        FetchError::Navigation(_) => match site {
            Site::Tokopedia => "Failed to navigate to URL"@,
            Site::Blibli => "Failed to navigate to Blibli search page"@,
        },
        FetchError::Page(reason) => "Page failed to load: "@ + reason@,
        FetchError::Content(_) => "Failed to get page content"@,
        FetchError::Unanswered => "Failed to get page content"@,
    }
}

impl FetchError {
    /// What a caller is told of the failure on a page of `site`.
    pub fn message(&self, site: Site) -> (text: String)
        ensures
            text@ == failure_text(*self, site),
    {
        match self {
            FetchError::Tab(_) => "Failed to create new tab".to_owned(),
            FetchError::Navigation(_) => match site {
                Site::Tokopedia => "Failed to navigate to URL".to_owned(),
                Site::Blibli => "Failed to navigate to Blibli search page".to_owned(),
            },
            FetchError::Page(reason) => {
                let mut text = "Page failed to load: ".to_owned();
                text.append(reason.as_str());
                text
            },
            FetchError::Content(_) => "Failed to get page content".to_owned(),
            FetchError::Unanswered => "Failed to get page content".to_owned(),
        }
    }
}

/// What came of the last step.
#[derive(Debug)]
pub enum FetchEvent {
    /// The step was carried out.
    Done,
    /// The step failed, for the reason given.
    Failed(String),
    /// The cards were counted; `None` where the count failed or gave no
    /// number.
    Count(Option<i64>),
    /// The markup of the page was read.
    Content(String),
}

/// The next step.
#[derive(Debug)]
pub enum FetchAction {
    /// Open a tab.
    OpenTab,
    /// Set the time that the tab waits for a page.
    SetTimeout { secs: u64 },
    /// Go to the address of the search page.
    Navigate,
    /// Read the title of the page.
    ReadTitle,
    /// Do nothing for a while. Where `progress` holds a count, the page is
    /// still polled in vain and the count may be reported as progress.
    Sleep { millis: u64, progress: Option<i64> },
    /// Count the result cards on the page.
    CountCards,
    /// Scroll to the bottom of the page.
    ScrollToBottom,
    /// Scroll to the top of the page.
    ScrollToTop,
    /// Read the markup of the page.
    ReadContent,
    /// The session has ended with the markup of the page.
    Deliver(String),
    /// The session has ended without a page.
    Abort(FetchError),
    /// The session had ended before.
    Nothing,
}

/// Where a session stands: the step that is under way.
#[derive(Debug, Clone, Copy, PartialEq, Eq, Structural)]
pub enum Phase {
    Opening,
    Configuring,
    Navigating,
    ReadingTitle,
    Settling,
    Probing,
    ProbePause { last: bool },
    ScrollingDown,
    ScrollSettling,
    Counting,
    Resting,
    ScrollingUp,
    TopSettling,
    Capturing,
    Finished,
}

/// The number of cards that a count gave: none where it failed or gave
/// less than one, and no more than fits.
pub open spec fn cards_counted(outcome: Option<i64>) -> usize {
    match outcome {
        Some(n) => if n <= 0 {
            0
        } else if n > usize::MAX {
            usize::MAX
        } else {
            n as usize
        },
        None => 0,
    }
}

/// The reason that an event carries, if it tells of a failure.
pub open spec fn failure(event: FetchEvent) -> Option<String> {
    match event {
        FetchEvent::Failed(reason) => Some(reason),
        _ => None,
    }
}

/// The count that an event carries; a failed count where it carries none.
pub open spec fn count_in(event: FetchEvent) -> Option<i64> {
    match event {
        FetchEvent::Count(outcome) => outcome,
        _ => None,
    }
}

/// The state of a session as plain values.
pub struct FetchState {
    pub plan: FetchPlan,
    pub phase: Phase,
    pub wait: WaitState,
    pub scroll: ScrollState,
}

impl FetchState {
    /// The state of a session that has asked for a tab.
    pub open spec fn start(plan: FetchPlan) -> FetchState {
        FetchState {
            plan,
            phase: Phase::Opening,
            wait: WaitState { attempts: 0, ready: false },
            scroll: ScrollState::start(),
        }
    }

    /// Whether the session is in a state that it can reach: polling and
    /// scrolling have not begun before their phases, and have not ended
    /// while their phases are under way.
    pub open spec fn consistent(self) -> bool {
        let fresh_wait = self.wait == (WaitState { attempts: 0, ready: false });
        let fresh_scroll = self.scroll == ScrollState::start();
        &&& self.wait.attempts <= POLL_ATTEMPTS
        &&& self.scroll.rounds <= SCROLL_ROUNDS
        &&& match self.phase {
            Phase::Opening | Phase::Configuring | Phase::Navigating | Phase::ReadingTitle
            | Phase::Settling => fresh_wait && fresh_scroll,
            Phase::Probing => !self.wait.finished() && fresh_scroll,
            Phase::ProbePause { last } => fresh_scroll && (!last ==> !self.wait.finished()),
            Phase::ScrollingDown | Phase::ScrollSettling | Phase::Counting | Phase::Resting =>
                !self.scroll.finished(),
            _ => true,
        }
    }

    /// The session in another phase.
    pub open spec fn at(self, phase: Phase) -> FetchState {
        FetchState { phase, ..self }
    }

    /// The state and the step that follow on `event`.
    ///
    /// A failure ends the session while the tab is opened, the address is
    /// gone to, the title is read or the markup is read. Anywhere else a
    /// failure is passed over: a count that failed counts as no cards, and
    /// a scroll that failed is followed by the count all the same.
    pub open spec fn next(self, event: FetchEvent) -> (FetchState, FetchAction) {
        match self.phase {
            Phase::Opening => match failure(event) {
                Some(reason) => (
                    self.at(Phase::Finished),
                    FetchAction::Abort(FetchError::Tab(reason)),
                ),
                None => (
                    self.at(Phase::Configuring),
                    FetchAction::SetTimeout { secs: PAGE_LOAD_TIMEOUT_SECS },
                ),
            },
            Phase::Configuring => (self.at(Phase::Navigating), FetchAction::Navigate),
            Phase::Navigating => match failure(event) {
                Some(reason) => (
                    self.at(Phase::Finished),
                    FetchAction::Abort(FetchError::Navigation(reason)),
                ),
                None => if self.plan.checks_title {
                    (self.at(Phase::ReadingTitle), FetchAction::ReadTitle)
                } else {
                    (
                        self.at(Phase::Settling),
                        FetchAction::Sleep { millis: self.plan.first_wait_ms, progress: None },
                    )
                },
            },
            Phase::ReadingTitle => match failure(event) {
                Some(reason) => (
                    self.at(Phase::Finished),
                    FetchAction::Abort(FetchError::Page(reason)),
                ),
                None => (
                    self.at(Phase::Settling),
                    FetchAction::Sleep { millis: self.plan.first_wait_ms, progress: None },
                ),
            },
            Phase::Settling => (self.at(Phase::Probing), FetchAction::CountCards),
            Phase::Probing => {
                let outcome = count_in(event);
                let wait = self.wait.after(outcome);
                match self.wait.step(outcome) {
                    WaitStep::Ready => (
                        FetchState { phase: Phase::ScrollingDown, wait, ..self },
                        FetchAction::ScrollToBottom,
                    ),
                    WaitStep::Retry { report } => (
                        FetchState { phase: Phase::ProbePause { last: false }, wait, ..self },
                        FetchAction::Sleep { millis: POLL_INTERVAL_MS, progress: report },
                    ),
                    WaitStep::GiveUp { report } => (
                        FetchState { phase: Phase::ProbePause { last: true }, wait, ..self },
                        FetchAction::Sleep { millis: POLL_INTERVAL_MS, progress: report },
                    ),
                }
            },
            Phase::ProbePause { last } => if last {
                (self.at(Phase::ScrollingDown), FetchAction::ScrollToBottom)
            } else {
                (self.at(Phase::Probing), FetchAction::CountCards)
            },
            Phase::ScrollingDown => (
                self.at(Phase::ScrollSettling),
                FetchAction::Sleep { millis: SCROLL_SETTLE_MS, progress: None },
            ),
            Phase::ScrollSettling => (self.at(Phase::Counting), FetchAction::CountCards),
            Phase::Counting => {
                let scroll = self.scroll.after(cards_counted(count_in(event)) as nat);
                if scroll.finished() {
                    (
                        FetchState { phase: Phase::ScrollingUp, scroll, ..self },
                        FetchAction::ScrollToTop,
                    )
                } else {
                    (
                        FetchState { phase: Phase::Resting, scroll, ..self },
                        FetchAction::Sleep { millis: SCROLL_PAUSE_MS, progress: None },
                    )
                }
            },
            Phase::Resting => (self.at(Phase::ScrollingDown), FetchAction::ScrollToBottom),
            Phase::ScrollingUp => (
                self.at(Phase::TopSettling),
                FetchAction::Sleep { millis: TOP_SETTLE_MS, progress: None },
            ),
            Phase::TopSettling => (self.at(Phase::Capturing), FetchAction::ReadContent),
            Phase::Capturing => match event {
                FetchEvent::Content(html) => (self.at(Phase::Finished), FetchAction::Deliver(html)),
                FetchEvent::Failed(reason) => (
                    self.at(Phase::Finished),
                    FetchAction::Abort(FetchError::Content(reason)),
                ),
                _ => (self.at(Phase::Finished), FetchAction::Abort(FetchError::Unanswered)),
            },
            Phase::Finished => (self, FetchAction::Nothing),
        }
    }

    /// A bound on the number of steps that the session can still take.
    pub open spec fn steps_left(self) -> nat {
        let rounds_left = (SCROLL_ROUNDS - self.scroll.rounds) as nat;
        let attempts_left = (POLL_ATTEMPTS - self.wait.attempts) as nat;
        match self.phase {
            Phase::Opening => 81,
            Phase::Configuring => 80,
            Phase::Navigating => 79,
            Phase::ReadingTitle => 78,
            Phase::Settling => 77,
            Phase::Probing => 36 + 2 * attempts_left,
            Phase::ProbePause { .. } => 37 + 2 * attempts_left,
            Phase::ScrollingDown => 3 + 4 * rounds_left,
            Phase::ScrollSettling => 2 + 4 * rounds_left,
            Phase::Counting => 1 + 4 * rounds_left,
            Phase::Resting => 4 + 4 * rounds_left,
            Phase::ScrollingUp => 3,
            Phase::TopSettling => 2,
            Phase::Capturing => 1,
            Phase::Finished => 0,
        }
    }
}

impl FetchState {
    /// The state after the first `n` of `events`.
    pub open spec fn run(self, events: Seq<FetchEvent>, n: int) -> FetchState
        decreases n,
    {
        if n <= 0 || n > events.len() {
            self
        } else {
            self.run(events, n - 1).next(events[n - 1]).0
        }
    }
}

/// Whatever comes of its steps, a session has ended after eighty-one of
/// them.
pub proof fn lemma_session_ends(plan: FetchPlan, events: Seq<FetchEvent>)
    requires
        events.len() >= 81,
    ensures
        FetchState::start(plan).run(events, 81).phase == Phase::Finished,
{
    lemma_run_counts_down(plan, events, 81);
}

proof fn lemma_run_counts_down(plan: FetchPlan, events: Seq<FetchEvent>, n: int)
    requires
        0 <= n <= events.len(),
    ensures
        FetchState::start(plan).run(events, n).consistent(),
        FetchState::start(plan).run(events, n).phase == Phase::Finished || FetchState::start(
            plan,
        ).run(events, n).steps_left() + n <= 81,
    decreases n,
{
    if n > 0 {
        lemma_run_counts_down(plan, events, n - 1);
        let before = FetchState::start(plan).run(events, n - 1);
        lemma_keeps_consistent(before, events[n - 1]);
        if before.phase != Phase::Finished {
            lemma_step_counts_down(before, events[n - 1]);
        }
    }
}

/// Every step brings a session nearer to its end: whatever the events, a
/// session ends within eighty-one steps. No wait is without bound.
pub proof fn lemma_step_counts_down(state: FetchState, event: FetchEvent)
    requires
        state.consistent(),
        state.phase != Phase::Finished,
    ensures
        state.next(event).0.consistent(),
        state.next(event).0.steps_left() < state.steps_left(),
        state.steps_left() <= 81,
{
}

/// A session opens one tab: the step with which it begins asks for it,
/// and no later step asks for another.
pub proof fn lemma_one_tab(state: FetchState, event: FetchEvent)
    ensures
        !(state.next(event).1 is OpenTab),
{
}

/// A session ends only by handing over the page or the reason why there
/// is none, and it does either exactly when it ends.
pub proof fn lemma_end_is_told(state: FetchState, event: FetchEvent)
    requires
        state.phase != Phase::Finished,
    ensures
        state.next(event).0.phase == Phase::Finished <==> (state.next(event).1 is Deliver
            || state.next(event).1 is Abort),
        state.next(event).1 is Deliver ==> state.phase == Phase::Capturing,
{
}

/// The session of one page.
#[derive(Debug)]
pub struct FetchSession {
    plan: FetchPlan,
    phase: Phase,
    waiter: ReadinessWaiter,
    expander: ScrollExpander,
}

impl View for FetchSession {
    type V = FetchState;

    closed spec fn view(&self) -> FetchState {
        FetchState {
            plan: self.plan,
            phase: self.phase,
            wait: self.waiter@,
            scroll: self.expander@,
        }
    }
}

impl FetchSession {
    /// Whether the session is in a state that it can reach.
    #[verifier::type_invariant]
    pub closed spec fn reachable(&self) -> bool {
        self@.consistent()
    }

    /// Begins the session of a page. The first step is to open a tab.
    pub fn begin(plan: FetchPlan) -> (started: (Self, FetchAction))
        ensures
            started.0@ == FetchState::start(plan),
            started.1 == FetchAction::OpenTab,
    {
        (
            FetchSession {
                plan,
                phase: Phase::Opening,
                waiter: ReadinessWaiter::new(),
                expander: ScrollExpander::new(),
            },
            FetchAction::OpenTab,
        )
    }

    /// Whether the session has ended.
    pub fn is_finished(&self) -> (finished: bool)
        ensures
            finished == (self@.phase == Phase::Finished),
    {
        self.phase == Phase::Finished
    }

    /// Whether the page showed a result card while it was polled.
    pub fn found_cards(&self) -> (ready: bool)
        ensures
            ready == self@.wait.ready,
    {
        self.waiter.is_ready()
    }

    /// Takes what came of the last step and gives the session as it goes
    /// on, with the next step.
    pub fn step(self, event: FetchEvent) -> (next: (Self, FetchAction))
        ensures
            self@.consistent(),
            next.0@ == self@.next(event).0,
            next.1 == self@.next(event).1,
    {
        proof {
            use_type_invariant(&self);
            lemma_keeps_consistent(self@, event);
        }
        let ghost state = self@;
        let FetchSession { plan, phase, waiter, expander } = self;
        let mut waiter = waiter;
        let mut expander = expander;
        let (phase, action) = match phase {
            Phase::Opening => match event {
                FetchEvent::Failed(reason) => (
                    Phase::Finished,
                    FetchAction::Abort(FetchError::Tab(reason)),
                ),
                _ => (Phase::Configuring, FetchAction::SetTimeout { secs: PAGE_LOAD_TIMEOUT_SECS }),
            },
            Phase::Configuring => (Phase::Navigating, FetchAction::Navigate),
            Phase::Navigating => match event {
                FetchEvent::Failed(reason) => (
                    Phase::Finished,
                    FetchAction::Abort(FetchError::Navigation(reason)),
                ),
                _ => if plan.checks_title {
                    (Phase::ReadingTitle, FetchAction::ReadTitle)
                } else {
                    (Phase::Settling, FetchAction::Sleep { millis: plan.first_wait_ms, progress: None })
                },
            },
            Phase::ReadingTitle => match event {
                FetchEvent::Failed(reason) => (
                    Phase::Finished,
                    FetchAction::Abort(FetchError::Page(reason)),
                ),
                _ => (Phase::Settling, FetchAction::Sleep { millis: plan.first_wait_ms, progress: None }),
            },
            Phase::Settling => (Phase::Probing, FetchAction::CountCards),
            Phase::Probing => {
                let outcome = match event {
                    FetchEvent::Count(outcome) => outcome,
                    _ => None,
                };
                match waiter.observe(outcome) {
                    WaitStep::Ready => (Phase::ScrollingDown, FetchAction::ScrollToBottom),
                    WaitStep::Retry { report } => (
                        Phase::ProbePause { last: false },
                        FetchAction::Sleep { millis: POLL_INTERVAL_MS, progress: report },
                    ),
                    WaitStep::GiveUp { report } => (
                        Phase::ProbePause { last: true },
                        FetchAction::Sleep { millis: POLL_INTERVAL_MS, progress: report },
                    ),
                }
            },
            Phase::ProbePause { last } => if last {
                (Phase::ScrollingDown, FetchAction::ScrollToBottom)
            } else {
                (Phase::Probing, FetchAction::CountCards)
            },
            Phase::ScrollingDown => (
                Phase::ScrollSettling,
                FetchAction::Sleep { millis: SCROLL_SETTLE_MS, progress: None },
            ),
            Phase::ScrollSettling => (Phase::Counting, FetchAction::CountCards),
            Phase::Counting => {
                let outcome = match event {
                    FetchEvent::Count(outcome) => outcome,
                    _ => None,
                };
                match expander.observe(count_of(outcome)) {
                    ScrollStep::Stop => (Phase::ScrollingUp, FetchAction::ScrollToTop),
                    ScrollStep::Again => (
                        Phase::Resting,
                        FetchAction::Sleep { millis: SCROLL_PAUSE_MS, progress: None },
                    ),
                }
            },
            Phase::Resting => (Phase::ScrollingDown, FetchAction::ScrollToBottom),
            Phase::ScrollingUp => (Phase::TopSettling, FetchAction::Sleep { millis: TOP_SETTLE_MS, progress: None }),
            Phase::TopSettling => (Phase::Capturing, FetchAction::ReadContent),
            Phase::Capturing => match event {
                FetchEvent::Content(html) => (Phase::Finished, FetchAction::Deliver(html)),
                FetchEvent::Failed(reason) => (
                    Phase::Finished,
                    FetchAction::Abort(FetchError::Content(reason)),
                ),
                _ => (Phase::Finished, FetchAction::Abort(FetchError::Unanswered)),
            },
            Phase::Finished => (Phase::Finished, FetchAction::Nothing),
        };
        let ghost after = FetchState { plan, phase, wait: waiter@, scroll: expander@ };
        assert(after == state.next(event).0);
        (FetchSession { plan, phase, waiter, expander }, action)
    }
}

proof fn lemma_keeps_consistent(state: FetchState, event: FetchEvent)
    requires
        state.consistent(),
    ensures
        state.next(event).0.consistent(),
{
}

/// The number of cards that a count gave.
pub fn count_of(outcome: Option<i64>) -> (count: usize)
    ensures
        count == cards_counted(outcome),
{
    match outcome {
        Some(n) => if n <= 0 {
            0
        } else if n as u64 > usize::MAX as u64 {
            usize::MAX
        } else {
            n as usize
        },
        None => 0,
    }
}

} // verus!
