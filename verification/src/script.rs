//! What a philosopher does, written down as the list of its actions.
//!
//! The state machine of [`crate::protocol`] moves one action at a time. Here
//! the same life is told at a stretch, round by round and meal by meal, and
//! the machine is shown to act it out.
use vstd::prelude::*;
use crate::progress::{lemma_run_joins, lemma_run_keeps_wf, lemma_run_unfolds, run};
use crate::protocol::{action_of, Action, Notice, Pause, Phase, State};

verus! {

/// The actions that a run goes through: the one under way before each of
/// its steps.
pub open spec fn trace(s: State, outcomes: Seq<bool>) -> Seq<Action> {
    Seq::new(outcomes.len(), |k: int| action_of(run(s, outcomes.take(k)).phase))
}

/// Whether the left fork is granted in the round that `outcomes` begins
/// with: the attempt on it is the second action of a round.
pub open spec fn left_granted(outcomes: Seq<bool>) -> bool {
    outcomes[1]
}

/// Whether the right fork is granted in the round that `outcomes` begins
/// with: the attempt on it comes after the jitter, which follows the
/// attempt on the left fork or the notice of its success.
pub open spec fn right_granted(outcomes: Seq<bool>) -> bool {
    if outcomes[1] {
        outcomes[4]
    } else {
        outcomes[3]
    }
}

/// How a round of attempts ends once it is known which forks were granted.
/// With both: the meal. With one: that fork goes back and settles, then the
/// back-off. With none: the back-off.
pub open spec fn round_ending(left: bool, right: bool) -> Seq<Action> {
    if left && right {
        seq![
            Action::Say(Notice::GotBoth),
            Action::Say(Notice::Eating),
            Action::Wait(Pause::Eat),
            Action::Say(Notice::ReturningForks),
            Action::ReleaseBoth,
        ]
    } else if left {
        seq![
            Action::Say(Notice::ReturningLeft),
            Action::ReleaseLeft,
            Action::Wait(Pause::Settle),
            Action::Wait(Pause::BackOff),
        ]
    } else if right {
        seq![
            Action::Say(Notice::ReturningRight),
            Action::ReleaseRight,
            Action::Wait(Pause::Settle),
            Action::Wait(Pause::BackOff),
        ]
    } else {
        seq![Action::Wait(Pause::BackOff)]
    }
}

/// One round of attempts: the left fork is waited for, then, after the
/// jitter and whatever became of the left fork, the right one; each fork
/// that was granted is announced; then the round ends as the two outcomes
/// ask.
pub open spec fn round_script(left: bool, right: bool) -> Seq<Action> {
    seq![Action::Say(Notice::TryingBoth), Action::TryLeft] + (if left {
        seq![Action::Say(Notice::GotLeft)]
    } else {
        Seq::<Action>::empty()
    }) + seq![Action::Wait(Pause::Jitter), Action::TryRight] + (if right {
        seq![Action::Say(Notice::GotRight)]
    } else {
        Seq::<Action>::empty()
    }) + round_ending(left, right)
}

/// The number of actions of a round.
pub open spec fn round_len(left: bool, right: bool) -> nat {
    if left && right {
        11
    } else if left || right {
        9
    } else {
        5
    }
}

/// The rounds of attempts of one meal, `tries` of them at most: round after
/// round until one obtains both forks; the meal is given up when the rounds
/// are used up.
pub open spec fn attempts_script(tries: nat, outcomes: Seq<bool>) -> Seq<Action>
    decreases tries,
{
    if tries == 0 {
        seq![Action::Say(Notice::GivingUp)]
    } else {
        let left = left_granted(outcomes);
        let right = right_granted(outcomes);
        if left && right {
            round_script(left, right)
        } else {
            round_script(left, right) + attempts_script(
                (tries - 1) as nat,
                outcomes.skip(round_len(left, right) as int),
            )
        }
    }
}

/// One meal with the thinking before it.
pub open spec fn meal_script(retry_bound: nat, outcomes: Seq<bool>) -> Seq<Action> {
    seq![Action::Say(Notice::Thinking), Action::Wait(Pause::Think), Action::Publish]
        + attempts_script(retry_bound, outcomes.skip(3))
}

/// The whole life at the table: taking the seat, then meal after meal.
pub open spec fn life_script(meals: nat, retry_bound: nat, outcomes: Seq<bool>) -> Seq<Action>
    decreases meals,
{
    if meals == 0 {
        seq![Action::Sit]
    } else {
        let before = life_script((meals - 1) as nat, retry_bound, outcomes);
        before + meal_script(retry_bound, outcomes.skip(before.len() as int))
    }
}

/// The trace of a run of two parts is the trace of the first part, then
/// the trace of the second from where the first ended.
pub proof fn lemma_trace_joins(s: State, first: Seq<bool>, second: Seq<bool>)
    ensures
        trace(s, first + second) == trace(s, first) + trace(run(s, first), second),
{
    let whole = first + second;
    let joined = trace(s, first) + trace(run(s, first), second);
    assert forall|k: int| 0 <= k < whole.len() implies trace(s, whole)[k] == joined[k] by {
        if k < first.len() {
            assert(whole.take(k) =~= first.take(k));
        } else {
            assert(whole.take(k) =~= first + second.take(k - first.len()));
            lemma_run_joins(s, first, second.take(k - first.len()));
        }
    }
    assert(trace(s, whole) =~= joined);
}

/// A round of attempts goes through the actions of its script, whatever
/// the forks answer, and ends the meal if both forks were granted, and
/// else counts as failed, with no fork in hand either way.
pub proof fn lemma_round_follows_script(s: State, outcomes: Seq<bool>)
    requires
        s.wf(),
        s.phase == Phase::SayTrying,
        outcomes.len() >= 11,
    ensures
        ({
            let left = left_granted(outcomes);
            let right = right_granted(outcomes);
            let n = round_len(left, right) as int;
            &&& round_script(left, right).len() == n
            &&& trace(s, outcomes.take(n)) == round_script(left, right)
            &&& run(s, outcomes.take(n)) == if left && right {
                s.meal_ended()
            } else {
                s.round_failed()
            }
        }),
{
    let left = left_granted(outcomes);
    let right = right_granted(outcomes);
    let n = round_len(left, right) as int;
    let o = outcomes.take(n);
    lemma_run_unfolds(s, o, 1);
    lemma_run_unfolds(s, o, 2);
    lemma_run_unfolds(s, o, 3);
    lemma_run_unfolds(s, o, 4);
    lemma_run_unfolds(s, o, 5);
    if n >= 9 {
        lemma_run_unfolds(s, o, 6);
        lemma_run_unfolds(s, o, 7);
        lemma_run_unfolds(s, o, 8);
        lemma_run_unfolds(s, o, 9);
    }
    if n >= 11 {
        lemma_run_unfolds(s, o, 10);
        lemma_run_unfolds(s, o, 11);
    }
    assert(o.take(n) =~= o);
    assert(trace(s, o) =~= round_script(left, right));
}

/// The rounds of attempts of a meal go through the actions of their
/// script, whatever the forks answer, and end the meal with no fork in
/// hand.
pub proof fn lemma_attempts_follow_script(s: State, outcomes: Seq<bool>)
    requires
        s.wf(),
        s.phase == Phase::SayTrying || (s.phase == Phase::SayGivingUp && s.tries_left == 0),
        outcomes.len() >= 11 * s.tries_left + 1,
    ensures
        ({
            let script = attempts_script(s.tries_left as nat, outcomes);
            let end = run(s, outcomes.take(script.len() as int));
            &&& 1 <= script.len() <= 11 * s.tries_left + 1
            &&& trace(s, outcomes.take(script.len() as int)) == script
            &&& end.phase == s.meal_ended().phase
            &&& end.meals_left == s.meal_ended().meals_left
            &&& end.retry_bound == s.retry_bound
            &&& !end.holds_left
            &&& !end.holds_right
        }),
    decreases s.tries_left,
{
    let script = attempts_script(s.tries_left as nat, outcomes);
    if s.tries_left == 0 {
        lemma_run_unfolds(s, outcomes.take(1), 1);
        assert(outcomes.take(1).take(0) =~= outcomes.take(0));
        assert(outcomes.take(1).take(1) =~= outcomes.take(1));
        assert(trace(s, outcomes.take(1)) =~= script);
    } else {
        let left = left_granted(outcomes);
        let right = right_granted(outcomes);
        let n = round_len(left, right) as int;
        lemma_round_follows_script(s, outcomes);
        if !(left && right) {
            let t = s.round_failed();
            let rest = outcomes.skip(n);
            assert(t.wf());
            lemma_attempts_follow_script(t, rest);
            let tail = attempts_script(t.tries_left as nat, rest);
            assert(script == round_script(left, right) + tail);
            assert(outcomes.take(script.len() as int) =~= outcomes.take(n) + rest.take(
                tail.len() as int,
            ));
            lemma_run_joins(s, outcomes.take(n), rest.take(tail.len() as int));
            lemma_trace_joins(s, outcomes.take(n), rest.take(tail.len() as int));
        }
    }
}

/// A meal, with the thinking before it, goes through the actions of its
/// script, whatever the forks answer, and ends with no fork in hand and
/// one meal less to come.
pub proof fn lemma_meal_follows_script(s: State, outcomes: Seq<bool>)
    requires
        s.wf(),
        s.phase == Phase::SayThinking,
        outcomes.len() >= 11 * s.retry_bound + 4,
    ensures
        ({
            let script = meal_script(s.retry_bound as nat, outcomes);
            &&& 4 <= script.len() <= 11 * s.retry_bound + 4
            &&& trace(s, outcomes.take(script.len() as int)) == script
            &&& run(s, outcomes.take(script.len() as int)) == State {
                tries_left: run(s, outcomes.take(script.len() as int)).tries_left,
                ..s.meal_ended()
            }
        }),
{
    let head = outcomes.take(3);
    lemma_run_unfolds(s, head, 1);
    lemma_run_unfolds(s, head, 2);
    lemma_run_unfolds(s, head, 3);
    assert(head.take(3) =~= head);
    let t = run(s, head);
    assert(t == s.at(Phase::Publishing).meal_begun());
    let rest = outcomes.skip(3);
    lemma_attempts_follow_script(t, rest);
    let tail = attempts_script(s.retry_bound as nat, rest);
    let script = meal_script(s.retry_bound as nat, outcomes);
    assert(trace(s, head) =~= seq![
        Action::Say(Notice::Thinking),
        Action::Wait(Pause::Think),
        Action::Publish,
    ]);
    assert(outcomes.take(script.len() as int) =~= head + rest.take(tail.len() as int));
    lemma_run_joins(s, head, rest.take(tail.len() as int));
    lemma_trace_joins(s, head, rest.take(tail.len() as int));
}

/// The first `done` meals of a life go through the actions of their
/// script, and leave the philosopher about to think again, or retired
/// when no meal is left.
pub proof fn lemma_meals_follow_script(start: State, done: nat, outcomes: Seq<bool>)
    requires
        start.wf(),
        start.phase == Phase::Seated,
        done <= start.meals_left,
        outcomes.len() >= 1 + done * (11 * start.retry_bound + 4),
    ensures
        ({
            let script = life_script(done, start.retry_bound as nat, outcomes);
            let end = run(start, outcomes.take(script.len() as int));
            &&& 1 <= script.len() <= 1 + done * (11 * start.retry_bound + 4)
            &&& trace(start, outcomes.take(script.len() as int)) == script
            &&& end.wf()
            &&& end.retry_bound == start.retry_bound
            &&& end.meals_left == start.meals_left - done
            &&& end.phase == if done == start.meals_left {
                Phase::Retired
            } else {
                Phase::SayThinking
            }
        }),
    decreases done,
{
    let rb = start.retry_bound as nat;
    let per_meal = 11 * start.retry_bound + 4;
    let script = life_script(done, rb, outcomes);
    if done == 0 {
        let head = outcomes.take(1);
        lemma_run_unfolds(start, head, 1);
        assert(head.take(1) =~= head);
        assert(trace(start, head) =~= seq![Action::Sit]);
    } else {
        let earlier = (done - 1) as nat;
        assert(done * per_meal == earlier * per_meal + per_meal) by (nonlinear_arith)
            requires
                done == earlier + 1,
        ;
        lemma_meals_follow_script(start, earlier, outcomes);
        let before = life_script(earlier, rb, outcomes);
        let head = outcomes.take(before.len() as int);
        let t = run(start, head);
        let rest = outcomes.skip(before.len() as int);
        lemma_meal_follows_script(t, rest);
        let meal = meal_script(rb, rest);
        assert(script == before + meal);
        assert(outcomes.take(script.len() as int) =~= head + rest.take(meal.len() as int));
        lemma_run_joins(start, head, rest.take(meal.len() as int));
        lemma_trace_joins(start, head, rest.take(meal.len() as int));
        lemma_run_keeps_wf(start, outcomes.take(script.len() as int));
    }
}

/// A whole life at the table goes through the actions of its script,
/// whatever the forks answer: the philosopher takes its seat, thinks and
/// eats, or gives up eating, as many times as it has meals ahead, and has
/// then left the table with no fork in hand.
pub proof fn lemma_life_follows_script(meals: u64, retry_bound: u32, outcomes: Seq<bool>)
    requires
        outcomes.len() >= 1 + meals * (11 * retry_bound + 4),
    ensures
        ({
            let script = life_script(meals as nat, retry_bound as nat, outcomes);
            let start = State::seated(meals, retry_bound);
            let end = run(start, outcomes.take(script.len() as int));
            &&& script.len() <= 1 + meals * (11 * retry_bound + 4)
            &&& trace(start, outcomes.take(script.len() as int)) == script
            &&& end.phase == Phase::Retired
            &&& !end.holds_left
            &&& !end.holds_right
        }),
{
    lemma_meals_follow_script(State::seated(meals, retry_bound), meals as nat, outcomes);
}

} // verus!
