//! Click modes and the click session: the plan a session is started from,
//! the decisions its timing loop takes, and the start/stop toggle.
use vstd::prelude::*;
use crate::text::str_equal;
use crate::config::Config;

verus! {

/// How a click is delivered to the target point.
#[derive(Clone, Copy, PartialEq, Eq, Debug, Structural)]
pub enum ClickMode {
    /// Injected input; works with every program, the cursor jumps to the target.
    Universal,
    /// Posted window messages; the cursor stays still, works with ordinary windows.
    Background,
}

/// The stored name of a mode.
pub open spec fn mode_name(m: ClickMode) -> Seq<char> {
    match m {
        ClickMode::Universal => seq!['u', 'n', 'i', 'v', 'e', 'r', 's', 'a', 'l'],
        ClickMode::Background => seq!['b', 'a', 'c', 'k', 'g', 'r', 'o', 'u', 'n', 'd'],
    }
}

/// The mode a stored name stands for: only the exact name of the background
/// mode selects it, every other text selects the universal mode.
pub open spec fn mode_from_name(s: Seq<char>) -> ClickMode {
    if s == mode_name(ClickMode::Background) {
        ClickMode::Background
    } else {
        ClickMode::Universal
    }
}

/// The stored name of a mode selects that mode again.
pub proof fn lemma_mode_name_round_trip(m: ClickMode)
    ensures
        mode_from_name(mode_name(m)) == m,
{
    assert(mode_name(ClickMode::Universal).len() != mode_name(ClickMode::Background).len());
}

impl ClickMode {
    /// The name under which the mode is stored in the settings.
    pub fn name(&self) -> (s: &'static str)
        ensures
            s@ == mode_name(*self),
    {
        proof {
            reveal_strlit("universal");
            reveal_strlit("background");
            assert("universal"@ =~= mode_name(ClickMode::Universal));
            assert("background"@ =~= mode_name(ClickMode::Background));
        }
        match self {
            ClickMode::Universal => "universal",
            ClickMode::Background => "background",
        }
    }

    /// The mode that a stored name selects.
    pub fn from_name(s: &str) -> (m: ClickMode)
        ensures
            m == mode_from_name(s@),
    {
        proof {
            reveal_strlit("background");
            assert("background"@ =~= mode_name(ClickMode::Background));
        }
        if str_equal(s, "background") {
            ClickMode::Background
        } else {
            ClickMode::Universal
        }
    }
}

impl<'a> From<&'a str> for ClickMode {
    fn from(s: &'a str) -> (m: ClickMode) {
        ClickMode::from_name(s)
    }
}

impl<'a> vstd::std_specs::convert::FromSpecImpl<&'a str> for ClickMode {
    open spec fn obeys_from_spec() -> bool {
        true
    }

    open spec fn from_spec(s: &'a str) -> ClickMode {
        mode_from_name(s@)
    }
}

/// The shortest interval between two clicks of a session, in milliseconds.
pub const MIN_INTERVAL_MS: u64 = 1;

/// The longest interval between two clicks of a session, in milliseconds.
pub const MAX_INTERVAL_MS: u64 = 60000;

/// The longest slice in which a session sleeps between two clicks, so that
/// a stop request and the deadline are answered promptly, in milliseconds.
pub const WAIT_SLICE_MS: u64 = 10;

/// The interval that a session uses for a requested one.
pub open spec fn session_interval(interval_ms: u64) -> u64 {
    if interval_ms < MIN_INTERVAL_MS {
        MIN_INTERVAL_MS
    } else if interval_ms > MAX_INTERVAL_MS {
        MAX_INTERVAL_MS
    } else {
        interval_ms
    }
}

/// The deadline of a session, in seconds after its start, for a countdown:
/// a countdown of 0 sets none.
pub open spec fn session_deadline(duration_sec: u64) -> Option<u64> {
    if duration_sec > 0 {
        Some(duration_sec)
    } else {
        None
    }
}

/// Whether the deadline of a session has passed, `elapsed_ms` milliseconds
/// after its start.
pub open spec fn deadline_passed(deadline: Option<u64>, elapsed_ms: u64) -> bool {
    match deadline {
        Some(d) => elapsed_ms >= d * 1000,
        None => false,
    }
}

/// What a click session is started with.
#[derive(Clone, Copy, PartialEq, Eq, Debug)]
pub struct ClickPlan {
    /// The target point in physical screen pixels.
    pub point: (i32, i32),
    /// The time between two clicks, in milliseconds.
    pub interval_ms: u64,
    /// The time after which the session stops by itself, in seconds after
    /// its start; none where it runs until it is stopped.
    pub deadline_secs: Option<u64>,
    /// How the clicks are delivered.
    pub mode: ClickMode,
}

/// The plan of a session started for the given settings.
pub open spec fn plan_for(point: (i32, i32), interval_ms: u64, duration_sec: u64, mode: ClickMode) -> ClickPlan {
    ClickPlan {
        point,
        interval_ms: session_interval(interval_ms),
        deadline_secs: session_deadline(duration_sec),
        mode,
    }
}

impl ClickPlan {
    /// The plan of a session: the interval is kept within
    /// `MIN_INTERVAL_MS..=MAX_INTERVAL_MS`, and a countdown of 0 sets no
    /// deadline.
    pub fn new(point: (i32, i32), interval_ms: u64, duration_sec: u64, mode: ClickMode) -> (p: ClickPlan)
        ensures
            p == plan_for(point, interval_ms, duration_sec, mode),
    {
        let interval = if interval_ms < MIN_INTERVAL_MS {
            MIN_INTERVAL_MS
        } else if interval_ms > MAX_INTERVAL_MS {
            MAX_INTERVAL_MS
        } else {
            interval_ms
        };
        let deadline_secs = if duration_sec > 0 {
            Some(duration_sec)
        } else {
            None
        };
        ClickPlan { point, interval_ms: interval, deadline_secs, mode }
    }
}

/// A session's interval lies within its bounds and is the requested one
/// where that does, and the session has a deadline exactly when a countdown
/// was set, at the countdown's length.
pub proof fn lemma_plan_bounds(point: (i32, i32), interval_ms: u64, duration_sec: u64, mode: ClickMode)
    ensures
        MIN_INTERVAL_MS <= plan_for(point, interval_ms, duration_sec, mode).interval_ms
            <= MAX_INTERVAL_MS,
        MIN_INTERVAL_MS <= interval_ms <= MAX_INTERVAL_MS ==> plan_for(
            point,
            interval_ms,
            duration_sec,
            mode,
        ).interval_ms == interval_ms,
        plan_for(point, interval_ms, duration_sec, mode).deadline_secs is None <==> duration_sec
            == 0,
        duration_sec > 0 ==> plan_for(point, interval_ms, duration_sec, mode).deadline_secs == Some(
            duration_sec,
        ),
{
}

/// The whole seconds left until a deadline, `elapsed_ms` milliseconds after
/// the start of the session; none where there is no deadline.
pub open spec fn remaining_spec(deadline: Option<u64>, elapsed_ms: u64) -> Option<u64> {
    match deadline {
        None => None,
        Some(d) => Some(
            (if d * 1000 > elapsed_ms {
                (d * 1000 - elapsed_ms) / 1000
            } else {
                0
            }) as u64,
        ),
    }
}

/// The time left never grows and never exceeds the countdown: for a
/// session with a deadline, two readings at `e1 <= e2` milliseconds after
/// its start give `remaining(e2) <= remaining(e1) <= d`, and the reading is
/// 0 exactly once the deadline has passed.
pub proof fn lemma_remaining_never_grows(d: u64, e1: u64, e2: u64)
    requires
        e1 <= e2,
    ensures
        remaining_spec(Some(d), e1) is Some,
        remaining_spec(Some(d), e2) is Some,
        remaining_spec(Some(d), e2)->0 <= remaining_spec(Some(d), e1)->0 <= d,
        (remaining_spec(Some(d), e2)->0 == 0) == (deadline_passed(Some(d), e2) || d * 1000 - e2
            < 1000),
{
    let a = d * 1000;
    if a > e2 {
        assert((a - e2) / 1000 <= (a - e1) / 1000) by (nonlinear_arith)
            requires
                e1 <= e2,
                a > e2,
        ;
        assert((a - e1) / 1000 <= d) by (nonlinear_arith)
            requires
                a == d * 1000,
                e1 >= 0,
                a > e1,
        ;
        assert(((a - e2) / 1000 == 0) == (a - e2 < 1000)) by (nonlinear_arith)
            requires
                a > e2,
        ;
    } else if a > e1 {
        assert((a - e1) / 1000 <= d) by (nonlinear_arith)
            requires
                a == d * 1000,
                e1 >= 0,
                a > e1,
        ;
    }
}

/// Whether a session waits on, `waited_ms` after its last click began and
/// `elapsed_ms` after its start: less than the interval has passed, no stop
/// was requested and the deadline has not passed.
pub open spec fn waits(plan: ClickPlan, waited_ms: u64, elapsed_ms: u64, stop_requested: bool) -> bool {
    &&& waited_ms < plan.interval_ms
    &&& !stop_requested
    &&& !deadline_passed(plan.deadline_secs, elapsed_ms)
}

/// A snapshot of a clicker's state, as the window shows it.
#[derive(Clone, Copy, PartialEq, Eq, Debug, Structural)]
pub struct ClickStats {
    /// The number of clicks delivered in the current or last session.
    pub count: u64,
    /// Whether a session is running.
    pub running: bool,
    /// The deadline of the running session, in seconds after its start.
    pub deadline: Option<u64>,
}

impl ClickStats {
    /// The state of a clicker that never ran.
    pub fn idle() -> (s: ClickStats)
        ensures
            s == (ClickStats { count: 0, running: false, deadline: None }),
    {
        ClickStats { count: 0, running: false, deadline: None }
    }

    /// The state at the start of a session.
    pub fn started(plan: &ClickPlan) -> (s: ClickStats)
        ensures
            s == (ClickStats { count: 0, running: true, deadline: plan.deadline_secs }),
    {
        ClickStats { count: 0, running: true, deadline: plan.deadline_secs }
    }

    /// The state once the session was stopped: the count is kept.
    pub fn stopped(&self) -> (s: ClickStats)
        ensures
            s == (ClickStats { count: self.count, running: false, deadline: None }),
    {
        ClickStats { count: self.count, running: false, deadline: None }
    }

    /// The whole seconds left until the deadline, `elapsed_ms` milliseconds
    /// after the start of the session; none where there is no deadline.
    pub fn remaining_secs(&self, elapsed_ms: u64) -> (r: Option<u64>)
        ensures
            r == remaining_spec(self.deadline, elapsed_ms),
    {
        match self.deadline {
            None => None,
            Some(d) => {
                let q = elapsed_ms / 1000;
                let rem = elapsed_ms % 1000;
                if q >= d {
                    Some(0)
                } else if rem == 0 {
                    Some(d - q)
                } else {
                    Some(d - q - 1)
                }
            },
        }
    }
}

/// The state of a running session, as its timing loop keeps it.
#[derive(Clone, Copy, PartialEq, Eq, Debug)]
pub struct ClickSession {
    /// What the session was started with.
    pub plan: ClickPlan,
    /// The number of clicks delivered so far.
    pub count: u64,
}

impl ClickSession {
    /// A session that has not clicked yet.
    pub fn start(plan: ClickPlan) -> (s: ClickSession)
        ensures
            s == (ClickSession { plan, count: 0 }),
    {
        ClickSession { plan, count: 0 }
    }

    /// Whether the next click may begin, `elapsed_ms` milliseconds after
    /// the start: no click begins once the deadline has passed.
    pub fn may_click(&self, elapsed_ms: u64) -> (r: bool)
        ensures
            r == !deadline_passed(self.plan.deadline_secs, elapsed_ms),
    {
        match self.plan.deadline_secs {
            Some(d) => elapsed_ms / 1000 < d,
            None => true,
        }
    }

    /// Records the outcome of one click, `elapsed_ms` milliseconds after
    /// the start: a delivered click is counted. Returns whether the session
    /// goes on, which it does until its deadline has passed.
    pub fn after_click(&mut self, delivered: bool, elapsed_ms: u64) -> (go_on: bool)
        requires
            delivered ==> old(self).count < u64::MAX,
        ensures
            final(self).plan == old(self).plan,
            final(self).count == old(self).count + (if delivered {
                1int
            } else {
                0int
            }),
            go_on == !deadline_passed(old(self).plan.deadline_secs, elapsed_ms),
    {
        if delivered {
            self.count = self.count + 1;
        }
        self.may_click(elapsed_ms)
    }

    /// Whether the session sleeps another slice before its next click,
    /// `waited_ms` after the last click began and `elapsed_ms` after the
    /// start: while less than the interval has passed, no stop was
    /// requested and the deadline has not passed.
    pub fn keep_waiting(&self, waited_ms: u64, elapsed_ms: u64, stop_requested: bool) -> (r: bool)
        ensures
            r == waits(self.plan, waited_ms, elapsed_ms, stop_requested),
    {
        waited_ms < self.plan.interval_ms && !stop_requested && self.may_click(elapsed_ms)
    }

    /// The length of the next sleep slice, `waited_ms` after the last click
    /// began (with less than the interval waited): `WAIT_SLICE_MS`, or the
    /// rest of the interval where that is shorter.
    pub fn wait_slice(&self, waited_ms: u64) -> (r: u64)
        requires
            waited_ms < self.plan.interval_ms,
        ensures
            r == (if self.plan.interval_ms - waited_ms < WAIT_SLICE_MS {
                self.plan.interval_ms - waited_ms
            } else {
                WAIT_SLICE_MS as int
            }),
            1 <= r <= WAIT_SLICE_MS,
            waited_ms + r <= self.plan.interval_ms,
    {
        let left = self.plan.interval_ms - waited_ms;
        if left < WAIT_SLICE_MS {
            left
        } else {
            WAIT_SLICE_MS
        }
    }
}

/// Every wait of a session ends once its deadline has passed, and no click
/// begins after it: neither `may_click` nor `keep_waiting` holds at or after
/// the deadline, whatever the interval.
pub proof fn lemma_deadline_ends_session(s: ClickSession, waited_ms: u64, elapsed_ms: u64, stop: bool)
    requires
        deadline_passed(s.plan.deadline_secs, elapsed_ms),
    ensures
        !waits(s.plan, waited_ms, elapsed_ms, stop),
        s.plan.deadline_secs is Some,
{
}

/// Where a click run stands.
#[derive(Clone, Copy, PartialEq, Eq, Debug, Structural)]
pub enum Phase {
    /// About to decide on the next click.
    Ready,
    /// A click was ordered and its outcome is awaited.
    Clicking,
    /// Waiting for the interval to pass.
    Waiting,
    /// The run is over.
    Done,
}

/// What the timing loop of a run reports.
#[derive(Clone, Copy, PartialEq, Eq, Debug, Structural)]
pub enum RunEvent {
    /// A look at the clock and the stop request: `elapsed_ms` since the
    /// start, `waited_ms` since the last click began.
    Check { elapsed_ms: u64, waited_ms: u64, stop_requested: bool },
    /// The outcome of the ordered click, `elapsed_ms` after the start.
    Clicked { delivered: bool, elapsed_ms: u64 },
}

/// What the timing loop does next.
#[derive(Clone, Copy, PartialEq, Eq, Debug, Structural)]
pub enum RunAction {
    /// Click now, then report the outcome.
    Click,
    /// Sleep this many milliseconds, then check again.
    Sleep(u64),
    /// Check again at once.
    Continue,
    /// End the run.
    Finish,
    /// The event does not fit the phase; nothing changed.
    Ignore,
}

/// A click run: the session and where its loop stands.
#[derive(Clone, Copy, PartialEq, Eq, Debug)]
pub struct ClickRun {
    pub session: ClickSession,
    pub phase: Phase,
}

/// The slice that `wait_slice` gives.
pub open spec fn slice_spec(plan: ClickPlan, waited_ms: u64) -> u64 {
    if plan.interval_ms - waited_ms < WAIT_SLICE_MS {
        (plan.interval_ms - waited_ms) as u64
    } else {
        WAIT_SLICE_MS
    }
}

/// The decision before a click: the run ends on a stop request or once the
/// deadline has passed; otherwise a click is ordered.
pub open spec fn decide_click(r: ClickRun, elapsed_ms: u64, stop_requested: bool) -> (ClickRun, RunAction) {
    if stop_requested || deadline_passed(r.session.plan.deadline_secs, elapsed_ms) {
        (ClickRun { phase: Phase::Done, ..r }, RunAction::Finish)
    } else {
        (ClickRun { phase: Phase::Clicking, ..r }, RunAction::Click)
    }
}

/// One step of a click run: its next state and action for an event.
pub open spec fn step_spec(r: ClickRun, e: RunEvent) -> (ClickRun, RunAction) {
    match r.phase {
        Phase::Done => (r, RunAction::Finish),
        Phase::Ready => match e {
            RunEvent::Check { elapsed_ms, waited_ms, stop_requested } => decide_click(
                r,
                elapsed_ms,
                stop_requested,
            ),
            RunEvent::Clicked { .. } => (r, RunAction::Ignore),
        },
        Phase::Clicking => match e {
            RunEvent::Clicked { delivered, elapsed_ms } => {
                let s = ClickSession {
                    count: if delivered {
                        (r.session.count + 1) as u64
                    } else {
                        r.session.count
                    },
                    ..r.session
                };
                if deadline_passed(r.session.plan.deadline_secs, elapsed_ms) {
                    (ClickRun { session: s, phase: Phase::Done }, RunAction::Finish)
                } else {
                    (ClickRun { session: s, phase: Phase::Waiting }, RunAction::Continue)
                }
            },
            RunEvent::Check { .. } => (r, RunAction::Ignore),
        },
        Phase::Waiting => match e {
            RunEvent::Check { elapsed_ms, waited_ms, stop_requested } => if waits(
                r.session.plan,
                waited_ms,
                elapsed_ms,
                stop_requested,
            ) {
                (r, RunAction::Sleep(slice_spec(r.session.plan, waited_ms)))
            } else {
                decide_click(r, elapsed_ms, stop_requested)
            },
            RunEvent::Clicked { .. } => (r, RunAction::Ignore),
        },
    }
}

impl ClickRun {
    /// A run that has not clicked yet.
    pub fn start(plan: ClickPlan) -> (r: ClickRun)
        ensures
            r == (ClickRun { session: ClickSession { plan, count: 0 }, phase: Phase::Ready }),
    {
        ClickRun { session: ClickSession::start(plan), phase: Phase::Ready }
    }

    /// One step of the run's timing loop: the decision for an event. Before
    /// a click the run ends on a stop request or a passed deadline; after a
    /// click the outcome is counted and the run ends on a passed deadline;
    /// while waiting it sleeps in slices until the interval has passed, a
    /// stop is requested or the deadline has passed.
    pub fn step(&mut self, e: RunEvent) -> (a: RunAction)
        requires
            old(self).phase == Phase::Clicking && (e matches RunEvent::Clicked {
                delivered: true,
                ..
            }) ==> old(self).session.count < u64::MAX,
        ensures
            (*final(self), a) == step_spec(*old(self), e),
    {
        match self.phase {
            Phase::Done => RunAction::Finish,
            Phase::Ready => match e {
                RunEvent::Check { elapsed_ms, waited_ms: _, stop_requested } => self.decide(
                    elapsed_ms,
                    stop_requested,
                ),
                RunEvent::Clicked { .. } => RunAction::Ignore,
            },
            Phase::Clicking => match e {
                RunEvent::Clicked { delivered, elapsed_ms } => {
                    if self.session.after_click(delivered, elapsed_ms) {
                        self.phase = Phase::Waiting;
                        RunAction::Continue
                    } else {
                        self.phase = Phase::Done;
                        RunAction::Finish
                    }
                },
                RunEvent::Check { .. } => RunAction::Ignore,
            },
            Phase::Waiting => match e {
                RunEvent::Check { elapsed_ms, waited_ms, stop_requested } => {
                    if self.session.keep_waiting(waited_ms, elapsed_ms, stop_requested) {
                        RunAction::Sleep(self.session.wait_slice(waited_ms))
                    } else {
                        self.decide(elapsed_ms, stop_requested)
                    }
                },
                RunEvent::Clicked { .. } => RunAction::Ignore,
            },
        }
    }

    fn decide(&mut self, elapsed_ms: u64, stop_requested: bool) -> (a: RunAction)
        ensures
            (*final(self), a) == decide_click(*old(self), elapsed_ms, stop_requested),
    {
        if stop_requested || !self.session.may_click(elapsed_ms) {
            self.phase = Phase::Done;
            RunAction::Finish
        } else {
            self.phase = Phase::Clicking;
            RunAction::Click
        }
    }
}

/// The state of a run after a sequence of events.
pub open spec fn run_after(r: ClickRun, events: Seq<RunEvent>) -> ClickRun
    decreases events.len(),
{
    if events.len() == 0 {
        r
    } else {
        step_spec(run_after(r, events.drop_last()), events.last()).0
    }
}

/// The action a run takes for its `i`-th event.
pub open spec fn action_at(r: ClickRun, events: Seq<RunEvent>, i: int) -> RunAction {
    step_spec(run_after(r, events.take(i)), events[i]).1
}

/// The number of delivered clicks reported while a click was awaited.
pub open spec fn delivered_clicks(r: ClickRun, events: Seq<RunEvent>) -> nat
    decreases events.len(),
{
    if events.len() == 0 {
        0
    } else {
        delivered_clicks(r, events.drop_last()) + (if run_after(r, events.drop_last()).phase
            == Phase::Clicking && (events.last() matches RunEvent::Clicked { delivered: true, .. }) {
            1nat
        } else {
            0nat
        })
    }
}

proof fn lemma_take_drop_last(events: Seq<RunEvent>, i: int)
    requires
        0 <= i < events.len(),
    ensures
        events.take(i + 1).drop_last() == events.take(i),
        events.take(i + 1).last() == events[i],
{
    assert(events.take(i + 1).drop_last() =~= events.take(i));
}

/// A run keeps its plan, and its count never exceeds the number of events.
pub proof fn lemma_run_keeps_plan(r: ClickRun, events: Seq<RunEvent>)
    ensures
        run_after(r, events).session.plan == r.session.plan,
    decreases events.len(),
{
    if events.len() > 0 {
        lemma_run_keeps_plan(r, events.drop_last());
    }
}

/// Over a whole run the count is exactly the number of delivered clicks
/// reported while a click was awaited: it starts at 0 and counts only
/// successful clicks (for runs shorter than the counter's range).
pub proof fn lemma_run_counts_delivered_clicks(plan: ClickPlan, events: Seq<RunEvent>)
    requires
        events.len() < u64::MAX,
    ensures
        run_after(ClickRun::start_spec(plan), events).session.count == delivered_clicks(
            ClickRun::start_spec(plan),
            events,
        ),
        delivered_clicks(ClickRun::start_spec(plan), events) <= events.len(),
    decreases events.len(),
{
    if events.len() > 0 {
        lemma_run_counts_delivered_clicks(plan, events.drop_last());
    }
}

/// Over a whole run no click is ordered on a stop request or after the
/// deadline: every `Click` answers a check that saw neither.
pub proof fn lemma_run_never_clicks_late(r: ClickRun, events: Seq<RunEvent>, i: int)
    requires
        0 <= i < events.len(),
        action_at(r, events, i) == RunAction::Click,
    ensures
        events[i] matches RunEvent::Check { elapsed_ms, stop_requested, .. } && (!stop_requested
            && !deadline_passed(r.session.plan.deadline_secs, elapsed_ms)),
{
    lemma_run_keeps_plan(r, events.take(i));
}

/// Once a run has finished it stays finished: every later action is
/// `Finish`, so no click follows.
pub proof fn lemma_run_finish_is_final(r: ClickRun, events: Seq<RunEvent>, i: int, j: int)
    requires
        0 <= i < j < events.len(),
        action_at(r, events, i) == RunAction::Finish,
    ensures
        action_at(r, events, j) == RunAction::Finish,
    decreases j - i,
{
    lemma_take_drop_last(events, i);
    assert(run_after(r, events.take(i + 1)).phase == Phase::Done);
    lemma_done_stays(r, events, i + 1, j);
}

proof fn lemma_done_stays(r: ClickRun, events: Seq<RunEvent>, k: int, j: int)
    requires
        0 <= k <= j < events.len(),
        run_after(r, events.take(k)).phase == Phase::Done,
    ensures
        run_after(r, events.take(j)).phase == Phase::Done,
        action_at(r, events, j) == RunAction::Finish,
    decreases j - k,
{
    if k < j {
        lemma_take_drop_last(events, k);
        lemma_done_stays(r, events, k + 1, j);
    }
}

/// A check at or after the deadline, while the run decides on a click or
/// waits, ends the run.
pub proof fn lemma_late_check_finishes(r: ClickRun, elapsed_ms: u64, waited_ms: u64, stop: bool)
    requires
        r.phase == Phase::Ready || r.phase == Phase::Waiting,
        deadline_passed(r.session.plan.deadline_secs, elapsed_ms),
    ensures
        step_spec(r, RunEvent::Check { elapsed_ms, waited_ms, stop_requested: stop }) == (
        ClickRun { phase: Phase::Done, ..r }, RunAction::Finish),
{
}

impl ClickRun {
    /// A run that has not clicked yet.
    pub open spec fn start_spec(plan: ClickPlan) -> ClickRun {
        ClickRun { session: ClickSession { plan, count: 0 }, phase: Phase::Ready }
    }
}

/// What the start/stop toggle does.
#[derive(Clone, Copy, PartialEq, Eq, Debug)]
pub enum ToggleDecision {
    /// Stop the running session.
    Stop,
    /// Start a session with this plan.
    Start(ClickPlan),
    /// Nothing: no point has been picked yet.
    NoPoint,
}

/// What the toggle does for a clicker in the given state and the settings.
pub open spec fn toggle_spec(running: bool, cfg: Config) -> ToggleDecision {
    if running {
        ToggleDecision::Stop
    } else {
        match cfg.point {
            Some(p) => ToggleDecision::Start(
                plan_for(p, cfg.interval_ms, cfg.duration_sec, mode_from_name(cfg.mode@)),
            ),
            None => ToggleDecision::NoPoint,
        }
    }
}

impl ToggleDecision {
    /// Whether the clicker runs once the decision is carried out.
    pub open spec fn runs_after(self) -> bool {
        self is Start
    }

    /// Whether the clicker runs once the decision is carried out.
    pub fn running_after(&self) -> (r: bool)
        ensures
            r == self.runs_after(),
    {
        match self {
            ToggleDecision::Start(_) => true,
            _ => false,
        }
    }
}

/// The start/stop toggle shared by the button, the hotkey and the tray
/// menu: a running clicker is stopped; an idle one is started with the
/// settings, if a point was picked; otherwise nothing happens.
pub fn toggle(running: bool, cfg: &Config) -> (d: ToggleDecision)
    ensures
        d == toggle_spec(running, *cfg),
{
    if running {
        ToggleDecision::Stop
    } else {
        match cfg.point {
            Some(p) => ToggleDecision::Start(
                ClickPlan::new(p, cfg.interval_ms, cfg.duration_sec, ClickMode::from_name(cfg.mode.as_str())),
            ),
            None => ToggleDecision::NoPoint,
        }
    }
}

/// After a toggle the clicker runs exactly when it was idle and a point was
/// picked, so toggling twice from idle with a point starts and then stops,
/// and a toggle never leaves a running clicker running.
pub proof fn lemma_toggle_flips(running: bool, cfg: Config)
    ensures
        toggle_spec(running, cfg).runs_after() == (!running && cfg.point is Some),
        cfg.point is Some ==> !toggle_spec(toggle_spec(false, cfg).runs_after(), cfg).runs_after(),
{
}

} // verus!

verus! {

/// After a click that does not end the run, the run waits, whether or not
/// the click was delivered: the outcome changes only the count (by one for
/// a delivered click) and the run goes on to wait out the interval.
pub proof fn lemma_click_outcome_leads_to_waiting(r: ClickRun, delivered: bool, elapsed_ms: u64)
    requires
        r.phase == Phase::Clicking,
        r.session.count < u64::MAX,
        !deadline_passed(r.session.plan.deadline_secs, elapsed_ms),
    ensures
        step_spec(r, RunEvent::Clicked { delivered, elapsed_ms }).0.phase == Phase::Waiting,
        step_spec(r, RunEvent::Clicked { delivered, elapsed_ms }).1 == RunAction::Continue,
        step_spec(r, RunEvent::Clicked { delivered, elapsed_ms }).0.session.plan == r.session.plan,
        step_spec(r, RunEvent::Clicked { delivered, elapsed_ms }).0.session.count == r.session.count
            + (if delivered {
            1int
        } else {
            0int
        }),
{
}

/// A waiting run orders its next click only once the whole interval has
/// passed since the last click began.
pub proof fn lemma_waiting_clicks_only_after_interval(r: ClickRun, e: RunEvent)
    requires
        r.phase == Phase::Waiting,
        step_spec(r, e).1 == RunAction::Click,
    ensures
        e matches RunEvent::Check { waited_ms, .. } && waited_ms >= r.session.plan.interval_ms,
{
}

proof fn lemma_between_clicks(r: ClickRun, events: Seq<RunEvent>, i: int, k: int)
    requires
        0 <= i < k < events.len(),
        action_at(r, events, i) == RunAction::Click,
        forall|m: int| i < m < k ==> action_at(r, events, m) != RunAction::Click,
    ensures
        ({
            let p = run_after(r, events.take(k)).phase;
            p == Phase::Clicking || p == Phase::Waiting || p == Phase::Done
        }),
    decreases k - i,
{
    lemma_take_drop_last(events, k - 1);
    if k - 1 > i {
        lemma_between_clicks(r, events, i, k - 1);
        assert(action_at(r, events, k - 1) != RunAction::Click);
    }
}

/// Over a whole run, two successive clicks are at least one interval
/// apart, whatever the outcome of the first: the check that orders the
/// second click has waited the plan's interval since the first began.
pub proof fn lemma_run_clicks_an_interval_apart(r: ClickRun, events: Seq<RunEvent>, i: int, j: int)
    requires
        0 <= i < j < events.len(),
        action_at(r, events, i) == RunAction::Click,
        action_at(r, events, j) == RunAction::Click,
        forall|m: int| i < m < j ==> action_at(r, events, m) != RunAction::Click,
    ensures
        events[j] matches RunEvent::Check { waited_ms, .. } && waited_ms
            >= r.session.plan.interval_ms,
{
    lemma_between_clicks(r, events, i, j);
    lemma_run_keeps_plan(r, events.take(j));
    let s = run_after(r, events.take(j));
    assert(s.phase == Phase::Waiting);
    lemma_waiting_clicks_only_after_interval(s, events[j]);
}

/// The toggle of an idle clicker with a picked point starts a session at
/// that point with the stored interval (kept within 1..=60000 ms), a
/// deadline of the stored countdown (none for 0) and the stored mode (the
/// background mode only for its exact name); a running clicker is stopped,
/// and an idle one without a point stays idle.
pub proof fn lemma_toggle_starts_from_settings(running: bool, cfg: Config)
    ensures
        running ==> toggle_spec(running, cfg) == ToggleDecision::Stop,
        !running && cfg.point is None ==> toggle_spec(running, cfg) == ToggleDecision::NoPoint,
        !running && cfg.point is Some ==> (toggle_spec(running, cfg) matches ToggleDecision::Start(
            plan,
        ) && {
            &&& plan.point == cfg.point->0
            &&& plan.interval_ms == (if cfg.interval_ms < 1 {
                1
            } else if cfg.interval_ms > 60000 {
                60000
            } else {
                cfg.interval_ms
            })
            &&& (cfg.duration_sec > 0 ==> plan.deadline_secs == Some(cfg.duration_sec))
            &&& (cfg.duration_sec == 0 ==> plan.deadline_secs is None)
            &&& plan.mode == (if cfg.mode@ == seq!['b', 'a', 'c', 'k', 'g', 'r', 'o', 'u', 'n', 'd'] {
                ClickMode::Background
            } else {
                ClickMode::Universal
            })
        }),
{
}

} // verus!
