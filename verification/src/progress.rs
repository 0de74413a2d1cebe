//! What holds of every run of a philosopher: it ends after a bounded number
//! of steps whatever the forks do, it never keeps a single fork for long,
//! and it leaves the table with empty hands.
use vstd::prelude::*;
use crate::protocol::{action_of, Action, Pause, Phase, State};

verus! {

/// The steps that one round of attempts takes at most.
pub open spec fn round_cost() -> nat {
    11
}

/// The steps that one meal takes at most, thinking included, with
/// `retry_bound` rounds of attempts.
pub open spec fn meal_cost(retry_bound: nat) -> nat {
    4 + round_cost() * retry_bound
}

/// The steps that are left at most in the current round of attempts.
pub open spec fn round_rank(phase: Phase) -> nat {
    match phase {
        Phase::SayTrying => 11,
        Phase::TryingLeft => 10,
        Phase::SayGotLeft => 9,
        Phase::Jitter => 8,
        Phase::TryingRight => 7,
        Phase::SayGotRight => 6,
        Phase::SayGotBoth => 5,
        Phase::SayEating => 4,
        Phase::Eating => 3,
        Phase::SayReturning => 2,
        Phase::ReleasingBoth => 1,
        Phase::SayReturningLeft => 4,
        Phase::ReleasingLeft => 3,
        Phase::SayReturningRight => 4,
        Phase::ReleasingRight => 3,
        Phase::Settling => 2,
        Phase::BackingOff => 1,
        _ => 0,
    }
}

/// The steps that are left at most in the current meal.
pub open spec fn meal_rank(s: State) -> nat {
    match s.phase {
        Phase::SayThinking => meal_cost(s.retry_bound as nat),
        Phase::Thinking => (meal_cost(s.retry_bound as nat) - 1) as nat,
        Phase::Publishing => (meal_cost(s.retry_bound as nat) - 2) as nat,
        Phase::SayGivingUp => 1,
        Phase::Seated | Phase::Retired => 0,
        _ => round_rank(s.phase) + round_cost() * ((s.tries_left - 1) as nat) + 1,
    }
}

/// The steps after which a philosopher has left the table at the latest.
pub open spec fn steps_left(s: State) -> nat {
    match s.phase {
        Phase::Seated => 1 + s.meals_left as nat * meal_cost(s.retry_bound as nat),
        Phase::Retired => 0,
        _ => ((s.meals_left - 1) as nat) * meal_cost(s.retry_bound as nat) + meal_rank(s),
    }
}

/// The state after a run of steps, `outcomes` telling how each one ended.
pub open spec fn run(s: State, outcomes: Seq<bool>) -> State
    decreases outcomes.len(),
{
    if outcomes.len() == 0 {
        s
    } else {
        run(s, outcomes.drop_last()).next(outcomes.last())
    }
}

/// A run of one step more is the run, then that step.
pub proof fn lemma_run_unfolds(s: State, outcomes: Seq<bool>, k: int)
    requires
        0 < k <= outcomes.len(),
    ensures
        run(s, outcomes.take(k)) == run(s, outcomes.take(k - 1)).next(outcomes[k - 1]),
        run(s, outcomes.take(0)) == s,
{
    assert(outcomes.take(k).drop_last() =~= outcomes.take(k - 1));
}

/// A run of two parts is the run of the first part, then the run of the
/// second from where the first ended.
pub proof fn lemma_run_joins(s: State, first: Seq<bool>, second: Seq<bool>)
    ensures
        run(s, first + second) == run(run(s, first), second),
    decreases second.len(),
{
    if second.len() == 0 {
        assert(first + second =~= first);
    } else {
        assert((first + second).drop_last() =~= first + second.drop_last());
        lemma_run_joins(s, first, second.drop_last());
    }
}

/// A step keeps a state among those that a philosopher can be in.
pub proof fn lemma_step_keeps_wf(s: State, granted: bool)
    requires
        s.wf(),
    ensures
        s.next(granted).wf(),
{
}

/// Every step of a philosopher who has not left the table brings the end
/// nearer, whether a fork was granted or not.
pub proof fn lemma_step_uses_up(s: State, granted: bool)
    requires
        s.wf(),
        s.phase != Phase::Retired,
    ensures
        steps_left(s.next(granted)) < steps_left(s),
{
    let m = meal_cost(s.retry_bound as nat);
    if s.phase == Phase::Seated {
        if s.meals_left > 0 {
            assert(s.meals_left as nat * m == ((s.meals_left - 1) as nat) * m + m)
                by (nonlinear_arith)
                requires
                    s.meals_left >= 1,
            ;
        }
    } else if s.phase == Phase::ReleasingBoth || s.phase == Phase::SayGivingUp {
        if s.meals_left > 1 {
            assert(((s.meals_left - 1) as nat) * m == ((s.meals_left - 2) as nat) * m + m)
                by (nonlinear_arith)
                requires
                    s.meals_left >= 2,
            ;
        } else {
            assert(((s.meals_left - 1) as nat) * m == 0) by (nonlinear_arith)
                requires
                    s.meals_left == 1,
            ;
        }
    }
}

/// A run from a state that a philosopher can be in stays among those states.
pub proof fn lemma_run_keeps_wf(s: State, outcomes: Seq<bool>)
    requires
        s.wf(),
    ensures
        run(s, outcomes).wf(),
    decreases outcomes.len(),
{
    if outcomes.len() > 0 {
        lemma_run_keeps_wf(s, outcomes.drop_last());
        lemma_step_keeps_wf(run(s, outcomes.drop_last()), outcomes.last());
    }
}

/// Each step of a run uses up one of the steps that were left, until the
/// philosopher has left the table.
pub proof fn lemma_run_uses_up(s: State, outcomes: Seq<bool>)
    requires
        s.wf(),
    ensures
        steps_left(run(s, outcomes)) + outcomes.len() <= steps_left(s) || run(s, outcomes).phase
            == Phase::Retired,
    decreases outcomes.len(),
{
    if outcomes.len() > 0 {
        let before = run(s, outcomes.drop_last());
        lemma_run_keeps_wf(s, outcomes.drop_last());
        lemma_run_uses_up(s, outcomes.drop_last());
        if before.phase != Phase::Retired {
            lemma_step_uses_up(before, outcomes.last());
        }
    }
}

/// Whatever the forks do, a philosopher has left the table after
/// `steps_left` steps at the latest, and stays away from it.
pub proof fn lemma_run_retires(s: State, outcomes: Seq<bool>)
    requires
        s.wf(),
        outcomes.len() >= steps_left(s),
    ensures
        run(s, outcomes).phase == Phase::Retired,
{
    lemma_run_uses_up(s, outcomes);
    lemma_run_keeps_wf(s, outcomes);
    let end = run(s, outcomes);
    if end.phase != Phase::Retired {
        assert(steps_left(end) == 0);
        if end.phase != Phase::Seated {
            assert(meal_rank(end) >= 1);
        }
    }
}

/// A philosopher seated for `meals` meals, each with `retry_bound` rounds of
/// attempts, has left the table after `1 + meals * (4 + 11 * retry_bound)`
/// steps at the latest, with no fork in hand, whatever the forks did.
pub proof fn lemma_life_is_bounded(meals: u64, retry_bound: u32, outcomes: Seq<bool>)
    requires
        outcomes.len() >= 1 + meals * (4 + 11 * retry_bound),
    ensures
        run(State::seated(meals, retry_bound), outcomes).phase == Phase::Retired,
        !run(State::seated(meals, retry_bound), outcomes).holds_left,
        !run(State::seated(meals, retry_bound), outcomes).holds_right,
{
    let s = State::seated(meals, retry_bound);
    lemma_run_retires(s, outcomes);
    lemma_run_keeps_wf(s, outcomes);
}

/// At the table for any number of meals, a philosopher who has left holds no
/// fork, and none while thinking or between two meals either.
pub proof fn lemma_meals_leave_forks_free(s: State)
    requires
        s.wf(),
        s.phase == Phase::Retired || s.phase == Phase::Seated || s.phase == Phase::SayThinking
            || s.phase == Phase::Thinking || s.phase == Phase::Publishing,
    ensures
        !s.holds_left,
        !s.holds_right,
{
}

/// The steps after which a single fork in hand has gone back, or the second
/// one has joined it, at the latest.
pub open spec fn partial_rank(phase: Phase) -> nat {
    match phase {
        Phase::SayGotLeft => 5,
        Phase::Jitter => 4,
        Phase::TryingRight => 3,
        Phase::SayGotRight => 3,
        Phase::SayReturningLeft | Phase::SayReturningRight => 2,
        Phase::ReleasingLeft | Phase::ReleasingRight => 1,
        _ => 0,
    }
}

/// A round of attempts begins with empty hands, and so does every back-off:
/// a single fork is never carried from one round to the next.
pub proof fn lemma_round_begins_empty_handed(s: State)
    requires
        s.wf(),
        s.phase == Phase::SayTrying || s.phase == Phase::TryingLeft || s.phase
            == Phase::Settling || s.phase == Phase::BackingOff || s.phase == Phase::SayGivingUp,
    ensures
        !s.holds_left,
        !s.holds_right,
{
}

/// With a single fork in hand a philosopher is between its two attempts or
/// on its way to give the fork back: the only pause it can be in is the
/// jitter between the attempts, and each step brings the end of that state
/// nearer.
pub proof fn lemma_partial_hold_is_brief(s: State, granted: bool)
    requires
        s.wf(),
        s.partial_hold(),
    ensures
        partial_rank(s.phase) >= 1,
        action_of(s.phase) is Wait ==> action_of(s.phase) == Action::Wait(Pause::Jitter),
        s.next(granted).partial_hold() ==> partial_rank(s.next(granted).phase) < partial_rank(
            s.phase,
        ),
{
}

/// A single fork in hand has gone back, or the second one has joined it,
/// after five steps at the latest.
pub proof fn lemma_partial_hold_ends(s: State, outcomes: Seq<bool>)
    requires
        s.wf(),
        s.partial_hold(),
        outcomes.len() >= partial_rank(s.phase),
    ensures
        partial_rank(s.phase) <= 5,
        exists|k: int|
            0 < k <= partial_rank(s.phase) && !(#[trigger] run(s, outcomes.take(k))).partial_hold(),
    decreases partial_rank(s.phase),
{
    lemma_partial_hold_is_brief(s, outcomes[0]);
    let t = s.next(outcomes[0]);
    lemma_run_unfolds(s, outcomes, 1);
    assert(run(s, outcomes.take(1)) == t);
    if t.partial_hold() {
        lemma_step_keeps_wf(s, outcomes[0]);
        let rest = outcomes.skip(1);
        lemma_partial_hold_ends(t, rest);
        let k = choose|k: int|
            0 < k <= partial_rank(t.phase) && !(#[trigger] run(t, rest.take(k))).partial_hold();
        assert(outcomes.take(k + 1) =~= outcomes.take(1) + rest.take(k));
        lemma_run_joins(s, outcomes.take(1), rest.take(k));
    }
}

} // verus!
