//! Notification polling engine: a state machine that decides, tick by tick,
//! whether to wait, to poll or to back off, and what a poll's result changes.
//!
//! The engine performs no I/O. Its driver sleeps, fetches and raises events as
//! the returned actions say, and hands every result back.

use vstd::prelude::*;
use crate::gateway::{GatewayError, GatewayErrorView};

verus! {

/// Where the engine stands.
#[derive(Debug, Clone, Copy, PartialEq, Eq, Structural)]
pub enum EnginePhase {
    /// No token was present at the last tick.
    Idle,
    /// Polling at the steady cadence.
    Polling,
    /// Waiting out a backoff delay after too many consecutive errors.
    BackingOff,
    /// Stopped for good.
    Cancelled,
}

/// The numbers that govern the engine's cadence and backoff.
#[derive(Debug, Clone, Copy, PartialEq, Eq, Structural)]
pub struct PollPolicy {
    /// Seconds to wait before re-checking for a token.
    pub idle_interval_secs: u64,
    /// Seconds between two poll cycles.
    pub poll_interval_secs: u64,
    /// Consecutive errors tolerated before backing off.
    pub error_threshold: u32,
    /// First, and baseline, backoff delay in seconds.
    pub initial_backoff_secs: u64,
    /// Largest backoff delay in seconds.
    pub max_backoff_secs: u64,
    /// Consecutive successes that bring the backoff delay back to its baseline.
    pub success_streak: u32,
}

impl PollPolicy {
    /// A usable policy: a positive baseline delay no larger than the cap, and a
    /// streak of at least one success.
    pub open spec fn wf(self) -> bool {
        &&& 0 < self.initial_backoff_secs <= self.max_backoff_secs
        &&& 0 < self.success_streak
    }

    /// The numbers of the standard policy.
    pub open spec fn standard_spec() -> PollPolicy {
        PollPolicy {
            idle_interval_secs: 10,
            poll_interval_secs: 30,
            error_threshold: 5,
            initial_backoff_secs: 10,
            max_backoff_secs: 300,
            success_streak: 3,
        }
    }

    /// The standard policy: re-check every 10 s while logged out, poll every
    /// 30 s, back off after more than 5 consecutive errors, starting at 10 s and
    /// capped at 300 s, and return to the baseline after 3 consecutive successes.
    pub fn standard() -> (policy: PollPolicy)
        ensures
            policy == PollPolicy::standard_spec(),
            policy.wf(),
    {
        PollPolicy {
            idle_interval_secs: 10,
            poll_interval_secs: 30,
            error_threshold: 5,
            initial_backoff_secs: 10,
            max_backoff_secs: 300,
            success_streak: 3,
        }
    }

    /// Tells whether the policy is usable.
    pub fn is_valid(&self) -> (valid: bool)
        ensures
            valid == self.wf(),
    {
        0 < self.initial_backoff_secs && self.initial_backoff_secs <= self.max_backoff_secs && 0
            < self.success_streak
    }
}

/// Failure and success streaks, and the delay of the next backoff round.
#[derive(Debug, Clone, Copy, PartialEq, Eq, Structural)]
pub struct BackoffState {
    pub consecutive_error_count: u32,
    pub current_delay: u64,
    pub consecutive_success_count: u32,
}

/// Twice the delay, capped.
pub open spec fn doubled_delay(delay: u64, cap: u64) -> u64 {
    if 2 * delay <= cap {
        (2 * delay) as u64
    } else {
        cap
    }
}

impl BackoffState {
    /// Delay within the policy's bounds, success streak not yet complete.
    pub open spec fn wf(self, policy: PollPolicy) -> bool {
        &&& policy.initial_backoff_secs <= self.current_delay <= policy.max_backoff_secs
        &&& self.consecutive_success_count < policy.success_streak
    }

    /// No streak of either kind, delay at the baseline.
    pub open spec fn baseline(policy: PollPolicy) -> BackoffState {
        BackoffState {
            consecutive_error_count: 0,
            current_delay: policy.initial_backoff_secs,
            consecutive_success_count: 0,
        }
    }

    /// True once the consecutive errors exceed the threshold.
    pub open spec fn exceeded(self, policy: PollPolicy) -> bool {
        self.consecutive_error_count > policy.error_threshold
    }

    /// A counted failure: one more consecutive error (the count stops at
    /// `u32::MAX`), the success streak broken, the delay untouched.
    pub open spec fn after_failure(self) -> BackoffState {
        BackoffState {
            consecutive_error_count: if self.consecutive_error_count < u32::MAX {
                (self.consecutive_error_count + 1) as u32
            } else {
                self.consecutive_error_count
            },
            current_delay: self.current_delay,
            consecutive_success_count: 0,
        }
    }

    /// True when one more success completes the streak.
    pub open spec fn streak_completes(self, policy: PollPolicy) -> bool {
        self.consecutive_success_count + 1 >= policy.success_streak
    }

    /// A success: the error count cleared, the streak one longer; a completed
    /// streak resets the delay to the baseline and starts a new streak.
    pub open spec fn after_success(self, policy: PollPolicy) -> BackoffState {
        if self.streak_completes(policy) {
            BackoffState {
                consecutive_error_count: 0,
                current_delay: policy.initial_backoff_secs,
                consecutive_success_count: 0,
            }
        } else {
            BackoffState {
                consecutive_error_count: 0,
                current_delay: self.current_delay,
                consecutive_success_count: (self.consecutive_success_count + 1) as u32,
            }
        }
    }

    /// The end of a backoff round: the delay doubled up to the cap, the error
    /// count cleared.
    pub open spec fn after_round(self, policy: PollPolicy) -> BackoffState {
        BackoffState {
            consecutive_error_count: 0,
            current_delay: doubled_delay(self.current_delay, policy.max_backoff_secs),
            consecutive_success_count: self.consecutive_success_count,
        }
    }

    /// The baseline state for a policy.
    pub fn new(policy: &PollPolicy) -> (state: BackoffState)
        ensures
            state == BackoffState::baseline(*policy),
    {
        BackoffState {
            consecutive_error_count: 0,
            current_delay: policy.initial_backoff_secs,
            consecutive_success_count: 0,
        }
    }

    /// Tells whether the consecutive errors exceed the policy's threshold.
    pub fn is_exceeded(&self, policy: &PollPolicy) -> (due: bool)
        ensures
            due == self.exceeded(*policy),
    {
        self.consecutive_error_count > policy.error_threshold
    }

    /// Records a counted failure.
    pub fn record_failure(&mut self)
        ensures
            *final(self) == old(self).after_failure(),
    {
        self.consecutive_error_count = self.consecutive_error_count.saturating_add(1);
        self.consecutive_success_count = 0;
    }

    /// Records a success.
    pub fn record_success(&mut self, policy: &PollPolicy)
        requires
            old(self).wf(*policy),
        ensures
            *final(self) == old(self).after_success(*policy),
            final(self).wf(*policy),
    {
        self.consecutive_error_count = 0;
        if self.consecutive_success_count + 1 >= policy.success_streak {
            self.current_delay = policy.initial_backoff_secs;
            self.consecutive_success_count = 0;
        } else {
            self.consecutive_success_count = self.consecutive_success_count + 1;
        }
    }

    /// Ends a backoff round.
    pub fn finish_round(&mut self, policy: &PollPolicy)
        requires
            old(self).wf(*policy),
        ensures
            *final(self) == old(self).after_round(*policy),
            final(self).wf(*policy),
    {
        self.consecutive_error_count = 0;
        let cap = policy.max_backoff_secs;
        if self.current_delay <= cap - self.current_delay {
            self.current_delay = self.current_delay + self.current_delay;
        } else {
            self.current_delay = cap;
        }
    }
}

/// The last unread count that a successful poll observed. Zero before the first.
#[derive(Debug, Clone, Copy, PartialEq, Eq, Structural)]
pub struct PollCursor {
    pub last_unread: i64,
}

/// What the driver does next.
#[derive(Debug, Clone, Copy, PartialEq, Eq, Structural)]
pub enum PollAction {
    /// Wait this many seconds, then tick again.
    Sleep { seconds: u64 },
    /// Fetch the unread count and hand the result back.
    FetchCount,
    /// Fetch the notification list and hand the result back.
    FetchList,
    /// The engine is cancelled: leave the loop.
    Stop,
}

/// What a count result asks of the driver.
#[derive(Debug, Clone, Copy, PartialEq, Eq, Structural)]
pub struct CountOutcome {
    /// The unread count to announce, when the poll succeeded.
    pub publish_unread: Option<i64>,
    /// How many of the newest notifications to surface one by one. Zero means
    /// that the list need not be fetched.
    pub surface_limit: u64,
    /// What to do once the count is announced.
    pub next: PollAction,
}

/// What a list result asks of the driver.
#[derive(Debug, Clone, Copy, PartialEq, Eq, Structural)]
pub struct ListOutcome {
    /// How many entries of the list, from its front, to surface one by one.
    pub surfaced: u64,
    /// Whether to announce the list as a whole.
    pub refreshed: bool,
    /// What to do once the events are out.
    pub next: PollAction,
}

/// The growth of the unread count that earns individual surfacing: the
/// difference when an earlier positive count grew, zero otherwise.
pub open spec fn surface_limit_of(last_unread: i64, current_unread: i64) -> u64 {
    if last_unread > 0 && current_unread > last_unread {
        (current_unread - last_unread) as u64
    } else {
        0
    }
}

/// The notifications surfaced one by one: the first `limit` entries of the
/// fetched list, which comes newest first, or all of it when it is shorter.
pub open spec fn surfaced<T>(items: Seq<T>, limit: u64) -> Seq<T> {
    if limit < items.len() {
        items.take(limit as int)
    } else {
        items
    }
}

/// How many entries of a list of that length are surfaced under a limit.
pub open spec fn surfaced_len(len: u64, limit: u64) -> u64 {
    if limit < len {
        limit
    } else {
        len
    }
}

/// The whole state of the engine.
#[derive(Debug, Clone, Copy, PartialEq, Eq, Structural)]
pub struct EngineState {
    pub phase: EnginePhase,
    pub cursor: PollCursor,
    pub backoff: BackoffState,
    pub policy: PollPolicy,
    /// The unread count of a poll whose list is still to come. The cursor
    /// moves to it once the list has arrived.
    pub pending: Option<i64>,
}

impl EngineState {
    /// A usable policy, a backoff state within its bounds, and a pending
    /// count only where an earlier positive count grew.
    pub open spec fn wf(self) -> bool {
        &&& self.policy.wf()
        &&& self.backoff.wf(self.policy)
        &&& self.pending matches Some(current) ==> 0 < self.cursor.last_unread < current
    }

    /// The state a fresh engine starts in.
    pub open spec fn initial(policy: PollPolicy) -> EngineState {
        EngineState {
            phase: EnginePhase::Idle,
            cursor: PollCursor { last_unread: 0 },
            backoff: BackoffState::baseline(policy),
            policy,
            pending: None,
        }
    }

    /// The state on waking up: a backoff round that was being waited out ends.
    pub open spec fn woken(self) -> EngineState {
        if self.phase == EnginePhase::BackingOff {
            EngineState {
                phase: EnginePhase::Polling,
                backoff: self.backoff.after_round(self.policy),
                ..self
            }
        } else {
            self
        }
    }

    /// One tick. A cancelled engine stops. Otherwise a pending backoff round
    /// ends first; then, without a token, the engine idles; with too many
    /// consecutive errors it backs off for the current delay; else it polls.
    pub open spec fn tick(self, token_present: bool) -> (EngineState, PollAction) {
        if self.phase == EnginePhase::Cancelled {
            (self, PollAction::Stop)
        } else {
            let s = self.woken();
            if !token_present {
                (
                    EngineState { phase: EnginePhase::Idle, ..s },
                    PollAction::Sleep { seconds: s.policy.idle_interval_secs },
                )
            } else if s.backoff.exceeded(s.policy) {
                (
                    EngineState { phase: EnginePhase::BackingOff, ..s },
                    PollAction::Sleep { seconds: s.backoff.current_delay },
                )
            } else {
                (EngineState { phase: EnginePhase::Polling, ..s }, PollAction::FetchCount)
            }
        }
    }

    /// The result of a count poll. A cancelled engine discards it. A missing
    /// token changes nothing. Any other failure is counted. A success is
    /// announced; when an earlier positive count grew, the list is fetched
    /// next and the cycle stays open until it arrives; otherwise the cycle
    /// succeeds at once: the cursor moves and the success is counted. A cycle
    /// that ends here is followed by the steady interval.
    pub open spec fn on_count(self, result: Result<i64, GatewayErrorView>) -> (
        EngineState,
        CountOutcome,
    ) {
        if self.phase == EnginePhase::Cancelled {
            (self, CountOutcome { publish_unread: None, surface_limit: 0, next: PollAction::Stop })
        } else {
            let next = PollAction::Sleep { seconds: self.policy.poll_interval_secs };
            match result {
                Err(GatewayErrorView::Unauthenticated) => (
                    self,
                    CountOutcome { publish_unread: None, surface_limit: 0, next },
                ),
                Err(_) => (
                    EngineState { backoff: self.backoff.after_failure(), ..self },
                    CountOutcome { publish_unread: None, surface_limit: 0, next },
                ),
                Ok(current) => {
                    let limit = surface_limit_of(self.cursor.last_unread, current);
                    if limit > 0 {
                        (
                            EngineState { pending: Some(current), ..self },
                            CountOutcome {
                                publish_unread: Some(current),
                                surface_limit: limit,
                                next: PollAction::FetchList,
                            },
                        )
                    } else {
                        (
                            EngineState {
                                cursor: PollCursor { last_unread: current },
                                backoff: self.backoff.after_success(self.policy),
                                pending: None,
                                ..self
                            },
                            CountOutcome { publish_unread: Some(current), surface_limit: 0, next },
                        )
                    }
                },
            }
        }
    }

    /// The result of a list fetch, as the length of the list or the failure.
    /// A cancelled engine discards it, and so does one that awaits no list.
    /// Otherwise the open cycle ends. A list that arrived completes it: the
    /// newest entries, as many as the count grew by or all that are there,
    /// are surfaced, the list is announced, the cursor moves and the success
    /// is counted. A missing token ends it without a trace. Any other failure
    /// is counted, and the cursor stays, so that the next cycle sees the
    /// growth again. The steady interval follows.
    pub open spec fn on_list(self, result: Result<u64, GatewayErrorView>) -> (
        EngineState,
        ListOutcome,
    ) {
        if self.phase == EnginePhase::Cancelled {
            (self, ListOutcome { surfaced: 0, refreshed: false, next: PollAction::Stop })
        } else {
            let next = PollAction::Sleep { seconds: self.policy.poll_interval_secs };
            let nothing = ListOutcome { surfaced: 0, refreshed: false, next };
            match self.pending {
                None => (self, nothing),
                Some(current) => match result {
                    Err(GatewayErrorView::Unauthenticated) => (
                        EngineState { pending: None, ..self },
                        nothing,
                    ),
                    Err(_) => (
                        EngineState {
                            backoff: self.backoff.after_failure(),
                            pending: None,
                            ..self
                        },
                        nothing,
                    ),
                    Ok(len) => (
                        EngineState {
                            cursor: PollCursor { last_unread: current },
                            backoff: self.backoff.after_success(self.policy),
                            pending: None,
                            ..self
                        },
                        ListOutcome {
                            surfaced: surfaced_len(
                                len,
                                surface_limit_of(self.cursor.last_unread, current),
                            ),
                            refreshed: true,
                            next,
                        },
                    ),
                },
            }
        }
    }

    /// Cancellation: the terminal phase, everything else as it was.
    pub open spec fn cancelled(self) -> EngineState {
        EngineState { phase: EnginePhase::Cancelled, ..self }
    }
}

/// View of a count result.
pub open spec fn count_result_view(result: Result<i64, GatewayError>) -> Result<
    i64,
    GatewayErrorView,
> {
    match result {
        Ok(unread) => Ok(unread),
        Err(e) => Err(e@),
    }
}

/// View of a list result.
pub open spec fn list_result_view(result: Result<u64, GatewayError>) -> Result<
    u64,
    GatewayErrorView,
> {
    match result {
        Ok(len) => Ok(len),
        Err(e) => Err(e@),
    }
}

/// Computes the surfacing limit for a new unread count.
pub fn surface_limit(last_unread: i64, current_unread: i64) -> (limit: u64)
    ensures
        limit == surface_limit_of(last_unread, current_unread),
{
    if last_unread > 0 && current_unread > last_unread {
        (current_unread - last_unread) as u64
    } else {
        0
    }
}

/// Keeps the notifications to surface one by one: the first `limit` entries
/// of the fetched list, or the whole list when it has no more than that.
pub fn select_newest<T>(items: Vec<T>, limit: u64) -> (selected: Vec<T>)
    ensures
        selected@ == surfaced(items@, limit),
        selected@.len() == if limit < items@.len() {
            limit as int
        } else {
            items@.len() as int
        },
{
    let mut selected = items;
    if limit < selected.len() as u64 {
        selected.truncate(limit as usize);
    }
    selected
}

/// The polling engine. Its state is always well formed; `snapshot` exposes it.
#[derive(Debug)]
pub struct PollingEngine {
    state: EngineState,
}

impl View for PollingEngine {
    type V = EngineState;

    closed spec fn view(&self) -> EngineState {
        self.state
    }
}

impl PollingEngine {
    #[verifier::type_invariant]
    spec fn inv(self) -> bool {
        self.state.wf()
    }

    /// An engine under the standard policy, idle, with no count seen yet.
    pub fn new() -> (engine: PollingEngine)
        ensures
            engine@ == EngineState::initial(PollPolicy::standard_spec()),
            engine@.wf(),
    {
        let policy = PollPolicy::standard();
        PollingEngine {
            state: EngineState {
                phase: EnginePhase::Idle,
                cursor: PollCursor { last_unread: 0 },
                backoff: BackoffState::new(&policy),
                policy,
                pending: None,
            },
        }
    }

    /// An engine under the given policy, or `None` when the policy is unusable.
    pub fn with_policy(policy: PollPolicy) -> (engine: Option<PollingEngine>)
        ensures
            policy.wf() <==> engine is Some,
            engine matches Some(e) ==> e@ == EngineState::initial(policy) && e@.wf(),
    {
        if policy.is_valid() {
            Some(
                PollingEngine {
                    state: EngineState {
                        phase: EnginePhase::Idle,
                        cursor: PollCursor { last_unread: 0 },
                        backoff: BackoffState::new(&policy),
                        policy,
                        pending: None,
                    },
                },
            )
        } else {
            None
        }
    }

    /// The engine's state, for inspection.
    pub fn snapshot(&self) -> (state: EngineState)
        ensures
            state == self@,
            state.wf(),
    {
        proof {
            use_type_invariant(self);
        }
        self.state
    }

    /// The current phase.
    pub fn phase(&self) -> (phase: EnginePhase)
        ensures
            phase == self@.phase,
    {
        self.state.phase
    }

    /// The unread count of the last successful poll.
    pub fn last_unread(&self) -> (unread: i64)
        ensures
            unread == self@.cursor.last_unread,
    {
        self.state.cursor.last_unread
    }

    /// The consecutive counted failures.
    pub fn error_count(&self) -> (count: u32)
        ensures
            count == self@.backoff.consecutive_error_count,
    {
        self.state.backoff.consecutive_error_count
    }

    /// The consecutive successes since the streak last started.
    pub fn success_count(&self) -> (count: u32)
        ensures
            count == self@.backoff.consecutive_success_count,
    {
        self.state.backoff.consecutive_success_count
    }

    /// The delay of the next backoff round, in seconds.
    pub fn current_delay(&self) -> (seconds: u64)
        ensures
            seconds == self@.backoff.current_delay,
    {
        self.state.backoff.current_delay
    }

    /// Advances the engine by one tick and says what the driver does next.
    pub fn tick(&mut self, token_present: bool) -> (action: PollAction)
        ensures
            (final(self)@, action) == old(self)@.tick(token_present),
            final(self)@.wf(),
    {
        proof {
            use_type_invariant(&*self);
        }
        let mut state = self.state;
        if state.phase == EnginePhase::Cancelled {
            return PollAction::Stop;
        }
        if state.phase == EnginePhase::BackingOff {
            state.backoff.finish_round(&state.policy);
            state.phase = EnginePhase::Polling;
        }
        let action = if !token_present {
            state.phase = EnginePhase::Idle;
            PollAction::Sleep { seconds: state.policy.idle_interval_secs }
        } else if state.backoff.is_exceeded(&state.policy) {
            state.phase = EnginePhase::BackingOff;
            PollAction::Sleep { seconds: state.backoff.current_delay }
        } else {
            state.phase = EnginePhase::Polling;
            PollAction::FetchCount
        };
        self.state = state;
        action
    }

    /// Takes in the result of a count poll and says what the driver does with it.
    pub fn on_count_result(&mut self, result: Result<i64, GatewayError>) -> (outcome: CountOutcome)
        ensures
            (final(self)@, outcome) == old(self)@.on_count(count_result_view(result)),
            final(self)@.wf(),
    {
        proof {
            use_type_invariant(&*self);
        }
        let mut state = self.state;
        if state.phase == EnginePhase::Cancelled {
            return CountOutcome { publish_unread: None, surface_limit: 0, next: PollAction::Stop };
        }
        let next = PollAction::Sleep { seconds: state.policy.poll_interval_secs };
        match result {
            Ok(current) => {
                let limit = surface_limit(state.cursor.last_unread, current);
                if limit > 0 {
                    state.pending = Some(current);
                    self.state = state;
                    CountOutcome {
                        publish_unread: Some(current),
                        surface_limit: limit,
                        next: PollAction::FetchList,
                    }
                } else {
                    state.cursor = PollCursor { last_unread: current };
                    state.backoff.record_success(&state.policy);
                    state.pending = None;
                    self.state = state;
                    CountOutcome { publish_unread: Some(current), surface_limit: 0, next }
                }
            },
            Err(e) => {
                if !e.is_unauthenticated() {
                    state.backoff.record_failure();
                    self.state = state;
                }
                CountOutcome { publish_unread: None, surface_limit: 0, next }
            },
        }
    }

    /// Takes in the result of a list fetch, as the length of the list or the
    /// failure, and says what the driver does with it.
    pub fn on_list_result(&mut self, result: Result<u64, GatewayError>) -> (outcome: ListOutcome)
        ensures
            (final(self)@, outcome) == old(self)@.on_list(list_result_view(result)),
            final(self)@.wf(),
    {
        proof {
            use_type_invariant(&*self);
        }
        let mut state = self.state;
        if state.phase == EnginePhase::Cancelled {
            return ListOutcome { surfaced: 0, refreshed: false, next: PollAction::Stop };
        }
        let next = PollAction::Sleep { seconds: state.policy.poll_interval_secs };
        let current = match state.pending {
            Some(current) => current,
            None => {
                return ListOutcome { surfaced: 0, refreshed: false, next };
            },
        };
        state.pending = None;
        match result {
            Ok(len) => {
                let limit = surface_limit(state.cursor.last_unread, current);
                let surfaced = if limit < len {
                    limit
                } else {
                    len
                };
                state.cursor = PollCursor { last_unread: current };
                state.backoff.record_success(&state.policy);
                self.state = state;
                ListOutcome { surfaced, refreshed: true, next }
            },
            Err(e) => {
                if !e.is_unauthenticated() {
                    state.backoff.record_failure();
                }
                self.state = state;
                ListOutcome { surfaced: 0, refreshed: false, next }
            },
        }
    }

    /// The unread count of a poll whose list is still to come, if there is one.
    pub fn pending_unread(&self) -> (pending: Option<i64>)
        ensures
            pending == self@.pending,
    {
        self.state.pending
    }

    /// Cancels the engine. Every later tick stops and every later result is discarded.
    pub fn cancel(&mut self)
        ensures
            final(self)@ == old(self)@.cancelled(),
            final(self)@.wf(),
    {
        proof {
            use_type_invariant(&*self);
        }
        let mut state = self.state;
        state.phase = EnginePhase::Cancelled;
        self.state = state;
    }
}

} // verus!
