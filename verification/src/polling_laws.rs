//! What holds of the polling engine in every state: the laws of its cadence,
//! its backoff and its surfacing of new notifications.

use vstd::prelude::*;
use vstd::arithmetic::power::lemma_pow0;
use vstd::arithmetic::power2::{lemma_pow2_unfold, pow2};
use crate::gateway::GatewayErrorView;
use crate::polling::{
    doubled_delay, surface_limit_of, surfaced, EnginePhase, EngineState, PollAction,
};

verus! {

/// The state after a run of poll cycles that all failed: each cycle is one
/// tick with a token present followed by the failure of the count poll.
pub open spec fn after_failed_cycles(s: EngineState, errors: Seq<GatewayErrorView>) -> EngineState
    decreases errors.len(),
{
    if errors.len() == 0 {
        s
    } else {
        after_failed_cycles(s, errors.drop_last()).tick(true).0.on_count(Err(errors.last())).0
    }
}

/// Every step keeps the state well formed: the delay stays between the
/// baseline and the cap, the success streak stays incomplete, and a list is
/// awaited only after a positive count grew.
pub proof fn lemma_steps_preserve_wf(
    s: EngineState,
    token_present: bool,
    result: Result<i64, GatewayErrorView>,
    list: Result<u64, GatewayErrorView>,
)
    requires
        s.wf(),
    ensures
        s.tick(token_present).0.wf(),
        s.on_count(result).0.wf(),
        s.on_list(list).0.wf(),
        s.cancelled().wf(),
        EngineState::initial(s.policy).wf(),
{
}

/// Without a token the engine never polls and counts nothing: it idles for
/// the idle interval, or stops when cancelled.
pub proof fn lemma_no_token_no_poll(s: EngineState)
    requires
        s.wf(),
    ensures
        s.tick(false).1 != PollAction::FetchCount,
        s.phase != EnginePhase::Cancelled ==> s.tick(false).1 == (PollAction::Sleep {
            seconds: s.policy.idle_interval_secs,
        }) && s.tick(false).0.phase == EnginePhase::Idle,
        s.tick(false).0.backoff.consecutive_error_count <= s.backoff.consecutive_error_count,
{
}

/// A fetch that fails for want of a token is not counted: a count poll
/// leaves the whole state as it was, a list fetch ends the open cycle and
/// leaves cursor and counters as they were.
pub proof fn lemma_unauthenticated_is_not_counted(s: EngineState)
    ensures
        s.on_count(Err(GatewayErrorView::Unauthenticated)).0 == s,
        s.on_count(Err(GatewayErrorView::Unauthenticated)).1.publish_unread is None,
        s.on_count(Err(GatewayErrorView::Unauthenticated)).1.surface_limit == 0,
        s.on_list(Err(GatewayErrorView::Unauthenticated)).0.backoff == s.backoff,
        s.on_list(Err(GatewayErrorView::Unauthenticated)).0.cursor == s.cursor,
        s.on_list(Err(GatewayErrorView::Unauthenticated)).1.surfaced == 0,
{
}

/// A cycle of the live engine ends in the steady interval, however it ends:
/// after a failed count poll, after a count that did not grow, and after
/// the list fetch that a grown count asks for. A failure changes neither
/// that interval nor the backoff delay.
pub proof fn lemma_result_keeps_cadence(
    s: EngineState,
    result: Result<i64, GatewayErrorView>,
    list: Result<u64, GatewayErrorView>,
)
    requires
        s.phase != EnginePhase::Cancelled,
    ensures
        s.on_count(result).1.next == if s.on_count(result).1.surface_limit > 0 {
            PollAction::FetchList
        } else {
            PollAction::Sleep { seconds: s.policy.poll_interval_secs }
        },
        result is Err ==> s.on_count(result).1.surface_limit == 0,
        s.on_list(list).1.next == (PollAction::Sleep { seconds: s.policy.poll_interval_secs }),
        result is Err ==> s.on_count(result).0.backoff.current_delay == s.backoff.current_delay,
        list is Err ==> s.on_list(list).0.backoff.current_delay == s.backoff.current_delay,
{
}

/// Steady cadence under failures. Starting from a live state, a run of
/// counted failures that keeps the consecutive errors within one of the
/// threshold polls in every cycle, adds one error per cycle and leaves the
/// backoff delay as the first wake-up set it. While the errors are within
/// the threshold the next tick polls again; once they exceed it the next
/// tick backs off for exactly that delay.
pub proof fn lemma_failed_cycles(s: EngineState, errors: Seq<GatewayErrorView>)
    requires
        s.wf(),
        s.phase != EnginePhase::Cancelled,
        forall|i: int| 0 <= i < errors.len() ==> !(errors[i] is Unauthenticated),
        s.woken().backoff.consecutive_error_count + errors.len() <= s.policy.error_threshold + 1,
        s.woken().backoff.consecutive_error_count + errors.len() <= u32::MAX,
    ensures
        ({
            let t = after_failed_cycles(s, errors);
            &&& t.wf()
            &&& t.policy == s.policy
            &&& t.cursor == s.cursor
            &&& t.phase != EnginePhase::Cancelled
            &&& errors.len() > 0 ==> t.phase == EnginePhase::Polling
            &&& errors.len() > 0 ==> t.backoff.current_delay == s.woken().backoff.current_delay
            &&& errors.len() > 0 ==> t.backoff.consecutive_error_count
                == s.woken().backoff.consecutive_error_count + errors.len()
            &&& errors.len() > 0 && t.backoff.consecutive_error_count <= s.policy.error_threshold
                ==> t.tick(true).1 == PollAction::FetchCount
            &&& errors.len() > 0 && t.backoff.consecutive_error_count > s.policy.error_threshold
                ==> t.tick(true).1 == (PollAction::Sleep { seconds: t.backoff.current_delay })
                && t.tick(true).0.phase == EnginePhase::BackingOff
        }),
    decreases errors.len(),
{
    if errors.len() > 0 {
        lemma_failed_cycles(s, errors.drop_last());
    }
}

/// Failures below the threshold leave the retry interval alone: after `k`
/// counted failures in a row that keep the consecutive errors within the
/// threshold, the backoff delay is what it was and the next tick polls.
pub proof fn lemma_steady_cadence_below_threshold(s: EngineState, errors: Seq<GatewayErrorView>)
    requires
        s.wf(),
        s.phase == EnginePhase::Polling || s.phase == EnginePhase::Idle,
        forall|i: int| 0 <= i < errors.len() ==> !(errors[i] is Unauthenticated),
        s.backoff.consecutive_error_count + errors.len() <= s.policy.error_threshold,
    ensures
        after_failed_cycles(s, errors).backoff.current_delay == s.backoff.current_delay,
        after_failed_cycles(s, errors).backoff.consecutive_error_count
            == s.backoff.consecutive_error_count + errors.len(),
        after_failed_cycles(s, errors).tick(true).1 == PollAction::FetchCount,
{
    lemma_failed_cycles(s, errors);
}

/// A backoff round. With the errors over the threshold a tick sends the
/// engine into `BackingOff` for the current delay; the wake-up that follows
/// doubles the delay up to the cap and clears the error count, so the new
/// delay is at least twice the old one or sits at the cap, and never below
/// the old one.
pub proof fn lemma_backoff_round(s: EngineState, token_after: bool)
    requires
        s.wf(),
        s.phase == EnginePhase::Polling || s.phase == EnginePhase::Idle,
        s.backoff.exceeded(s.policy),
    ensures
        s.tick(true).1 == (PollAction::Sleep { seconds: s.backoff.current_delay }),
        s.tick(true).0.phase == EnginePhase::BackingOff,
        s.tick(true).0.backoff == s.backoff,
        ({
            let woke = s.tick(true).0.tick(token_after).0;
            &&& woke.backoff.current_delay == doubled_delay(
                s.backoff.current_delay,
                s.policy.max_backoff_secs,
            )
            &&& woke.backoff.current_delay >= s.backoff.current_delay
            &&& woke.backoff.current_delay >= 2 * s.backoff.current_delay
                || woke.backoff.current_delay == s.policy.max_backoff_secs
            &&& woke.backoff.current_delay <= s.policy.max_backoff_secs
            &&& woke.backoff.consecutive_error_count == 0
            &&& token_after ==> s.tick(true).0.tick(token_after).1 == PollAction::FetchCount
        }),
{
}

/// Successive backoff rounds. When a round that waited `d` seconds is
/// followed by nothing but counted failures until the errors exceed the
/// threshold again, the next round waits twice `d`, or the cap.
pub proof fn lemma_next_round_doubles(s: EngineState, errors: Seq<GatewayErrorView>)
    requires
        s.wf(),
        s.phase == EnginePhase::Polling || s.phase == EnginePhase::Idle,
        s.backoff.exceeded(s.policy),
        forall|i: int| 0 <= i < errors.len() ==> !(errors[i] is Unauthenticated),
        errors.len() == s.policy.error_threshold + 1,
    ensures
        s.tick(true).1 == (PollAction::Sleep { seconds: s.backoff.current_delay }),
        after_failed_cycles(s.tick(true).0, errors).tick(true).1 == (PollAction::Sleep {
            seconds: doubled_delay(s.backoff.current_delay, s.policy.max_backoff_secs),
        }),
{
    lemma_failed_cycles(s.tick(true).0, errors);
}

/// The delay after a number of backoff rounds in a row.
pub open spec fn delay_after_rounds(delay: u64, cap: u64, rounds: nat) -> u64
    decreases rounds,
{
    if rounds == 0 {
        delay
    } else {
        doubled_delay(delay_after_rounds(delay, cap, (rounds - 1) as nat), cap)
    }
}

/// Repeated backoff rounds grow the delay geometrically and stop at the cap:
/// after `rounds` rounds a delay `d` has become `d * 2^rounds`, or the cap
/// when that would exceed it.
pub proof fn lemma_rounds_double_up_to_cap(delay: u64, cap: u64, rounds: nat)
    requires
        0 < delay <= cap,
    ensures
        delay_after_rounds(delay, cap, rounds) == if delay * pow2(rounds) <= cap {
            delay * pow2(rounds)
        } else {
            cap as int
        },
        delay <= delay_after_rounds(delay, cap, rounds) <= cap,
    decreases rounds,
{
    if rounds == 0 {
        lemma_pow0(2);
        assert(delay * pow2(0) == delay) by (nonlinear_arith)
            requires
                pow2(0) == 1,
        ;
    } else {
        let before = (rounds - 1) as nat;
        lemma_rounds_double_up_to_cap(delay, cap, before);
        lemma_pow2_unfold(rounds);
        let grown = delay * pow2(before);
        assert(delay * pow2(rounds) == 2 * grown) by (nonlinear_arith)
            requires
                pow2(rounds) == 2 * pow2(before),
                grown == delay * pow2(before),
        ;
        assert(grown >= delay) by (nonlinear_arith)
            requires
                pow2(before) >= 1,
                delay > 0,
                grown == delay * pow2(before),
        ;
    }
}

/// A failing backend is always retried: a live engine with a token polls at
/// the next tick, or, when it has to back off first, at the tick after.
pub proof fn lemma_eventual_retry(s: EngineState)
    requires
        s.wf(),
        s.phase != EnginePhase::Cancelled,
    ensures
        s.tick(true).1 == PollAction::FetchCount || s.tick(true).0.tick(true).1
            == PollAction::FetchCount,
{
}

/// Only cancellation ends the engine: no tick and no result, failures
/// included, stops a live engine or cancels it.
pub proof fn lemma_only_cancel_stops(
    s: EngineState,
    token_present: bool,
    result: Result<i64, GatewayErrorView>,
    list: Result<u64, GatewayErrorView>,
)
    requires
        s.phase != EnginePhase::Cancelled,
    ensures
        s.tick(token_present).1 != PollAction::Stop,
        s.tick(token_present).0.phase != EnginePhase::Cancelled,
        s.on_count(result).1.next != PollAction::Stop,
        s.on_count(result).0.phase != EnginePhase::Cancelled,
        s.on_list(list).1.next != PollAction::Stop,
        s.on_list(list).0.phase != EnginePhase::Cancelled,
{
}

/// The backoff delay never decreases, except when a successful cycle
/// completes the success streak: then it returns to the baseline.
pub proof fn lemma_delay_drops_only_on_streak(
    s: EngineState,
    token_present: bool,
    result: Result<i64, GatewayErrorView>,
    list: Result<u64, GatewayErrorView>,
)
    requires
        s.wf(),
    ensures
        s.tick(token_present).0.backoff.current_delay >= s.backoff.current_delay,
        s.cancelled().backoff.current_delay == s.backoff.current_delay,
        s.on_count(result).0.backoff.current_delay >= s.backoff.current_delay || (result is Ok
            && s.phase != EnginePhase::Cancelled && s.backoff.streak_completes(s.policy)
            && s.on_count(result).0.backoff.current_delay == s.policy.initial_backoff_secs),
        s.on_list(list).0.backoff.current_delay >= s.backoff.current_delay || (list is Ok
            && s.phase != EnginePhase::Cancelled && s.backoff.streak_completes(s.policy)
            && s.on_list(list).0.backoff.current_delay == s.policy.initial_backoff_secs),
{
}

/// Delta-bounded surfacing. When an earlier positive unread count `last`
/// grew to `current`, the engine asks for the list, and of a list of `len`
/// entries it surfaces the smaller of the growth and `len`; the cursor then
/// stands at `current` and the cycle counts as a success.
pub proof fn lemma_growth_surfaces_bounded(s: EngineState, current: i64, len: u64)
    requires
        s.phase != EnginePhase::Cancelled,
        0 < s.cursor.last_unread < current,
    ensures
        s.on_count(Ok(current)).1.next == PollAction::FetchList,
        s.on_count(Ok(current)).1.publish_unread == Some(current),
        s.on_count(Ok(current)).1.surface_limit == current - s.cursor.last_unread,
        ({
            let listed = s.on_count(Ok(current)).0.on_list(Ok(len));
            &&& listed.1.surfaced == if current - s.cursor.last_unread < len {
                current - s.cursor.last_unread
            } else {
                len as int
            }
            &&& listed.1.refreshed
            &&& listed.0.cursor.last_unread == current
            &&& listed.0.backoff == s.backoff.after_success(s.policy)
            &&& listed.0.pending is None
        }),
{
}

/// The entries surfaced one by one are the first of the fetched list, as
/// many as the engine says: the smaller of the growth and the list's length.
pub proof fn lemma_surfaced_count<T>(last: i64, current: i64, items: Seq<T>)
    requires
        0 < last < current,
    ensures
        surfaced(items, surface_limit_of(last, current)).len() == if current - last
            < items.len() {
            current - last
        } else {
            items.len() as int
        },
        surfaced(items, surface_limit_of(last, current)) =~= items.take(
            surfaced(items, surface_limit_of(last, current)).len() as int,
        ),
{
}

/// A list fetch that fails is counted like a failed poll, and the cursor
/// stays where it was, so that the next cycle finds the growth again.
pub proof fn lemma_failed_list_is_counted(s: EngineState, current: i64, error: GatewayErrorView)
    requires
        s.phase != EnginePhase::Cancelled,
        0 < s.cursor.last_unread < current,
        !(error is Unauthenticated),
    ensures
        ({
            let failed = s.on_count(Ok(current)).0.on_list(Err(error));
            &&& failed.0.backoff == s.backoff.after_failure()
            &&& failed.0.cursor == s.cursor
            &&& failed.0.pending is None
            &&& failed.1.surfaced == 0
            &&& !failed.1.refreshed
            &&& failed.0.on_count(Ok(current)).1.next == PollAction::FetchList
        }),
{
}

/// Nothing is surfaced one by one unless an earlier positive count grew: not
/// on the first count after start, nor when the count stays or falls.
pub proof fn lemma_no_growth_surfaces_nothing<T>(last: i64, current: i64, items: Seq<T>)
    requires
        last <= 0 || current <= last,
    ensures
        surface_limit_of(last, current) == 0,
        surfaced(items, surface_limit_of(last, current)).len() == 0,
{
}

/// A count that earns no surfacing completes its cycle at once: the cursor
/// moves to it, the error count is cleared and the count is announced.
pub proof fn lemma_success_moves_cursor(s: EngineState, current: i64)
    requires
        s.phase != EnginePhase::Cancelled,
        s.cursor.last_unread <= 0 || current <= s.cursor.last_unread,
    ensures
        s.on_count(Ok(current)).0.cursor.last_unread == current,
        s.on_count(Ok(current)).0.backoff.consecutive_error_count == 0,
        s.on_count(Ok(current)).0.pending is None,
        s.on_count(Ok(current)).1.publish_unread == Some(current),
        s.on_count(Ok(current)).1.surface_limit == 0,
{
}

/// Cancellation is final: a cancelled engine stops at every tick, discards
/// every result, and its state no longer changes.
pub proof fn lemma_cancelled_is_terminal(
    s: EngineState,
    token_present: bool,
    result: Result<i64, GatewayErrorView>,
    list: Result<u64, GatewayErrorView>,
)
    ensures
        s.cancelled().tick(token_present) == (s.cancelled(), PollAction::Stop),
        s.cancelled().on_count(result).0 == s.cancelled(),
        s.cancelled().on_count(result).1.next == PollAction::Stop,
        s.cancelled().on_count(result).1.publish_unread is None,
        s.cancelled().on_list(list).0 == s.cancelled(),
        s.cancelled().on_list(list).1.next == PollAction::Stop,
        s.cancelled().on_list(list).1.surfaced == 0,
        s.cancelled().cancelled() == s.cancelled(),
{
}

} // verus!
