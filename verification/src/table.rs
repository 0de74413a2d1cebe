//! The whole table: every philosopher's state side by side, and what holds
//! of the forks between them however their steps interleave.
//!
//! A fork is waited for through its lock, and the lock grants it only while
//! nobody holds it. That is the one thing asked of the locks here; the rest
//! follows from the protocol.
use vstd::prelude::*;
use crate::protocol::{Phase, State};
use crate::seating::{left_of, right_of, seat_left_of_fork};

verus! {

/// One if the condition holds, zero if not.
pub open spec fn one_if(b: bool) -> nat {
    if b {
        1
    } else {
        0
    }
}

/// How many holds there are on `fork`: one for its right-hand neighbour if
/// that philosopher has it as its left fork in hand, one for its left-hand
/// neighbour if that philosopher has it as its right fork in hand.
pub open spec fn holders(seats: Seq<State>, fork: nat) -> nat {
    one_if(seats[fork as int].holds_left) + one_if(
        seats[seat_left_of_fork(fork, seats.len()) as int].holds_right,
    )
}

/// Nobody holds `fork`.
pub open spec fn is_free(seats: Seq<State>, fork: nat) -> bool {
    holders(seats, fork) == 0
}

/// No fork is held twice.
pub open spec fn exclusive(seats: Seq<State>) -> bool {
    forall|fork: nat| fork < seats.len() ==> #[trigger] holders(seats, fork) <= 1
}

/// Every philosopher is in a state that it can be in.
pub open spec fn all_wf(seats: Seq<State>) -> bool {
    forall|seat: int| 0 <= seat < seats.len() ==> (#[trigger] seats[seat]).wf()
}

/// Every philosopher has left the table.
pub open spec fn all_retired(seats: Seq<State>) -> bool {
    forall|seat: int| 0 <= seat < seats.len() ==> (#[trigger] seats[seat]).phase == Phase::Retired
}

/// A table of `n` philosophers who have just been seated.
pub open spec fn laid(n: nat, meals: u64, retry_bound: u32) -> Seq<State> {
    Seq::new(n, |seat: int| State::seated(meals, retry_bound))
}

/// One step of the table: the philosopher at `seat` ends the action it has
/// under way, and `granted` tells whether a fork it waited for was obtained.
pub struct Move {
    pub seat: nat,
    pub granted: bool,
}

/// The step is one that the locks allow: a fork is granted only while it is
/// free.
pub open spec fn allowed(seats: Seq<State>, m: Move) -> bool {
    &&& m.seat < seats.len()
    &&& m.granted && seats[m.seat as int].phase == Phase::TryingLeft ==> is_free(
        seats,
        left_of(m.seat, seats.len()),
    )
    &&& m.granted && seats[m.seat as int].phase == Phase::TryingRight ==> is_free(
        seats,
        right_of(m.seat, seats.len()),
    )
}

/// The table after a step.
pub open spec fn after(seats: Seq<State>, m: Move) -> Seq<State> {
    seats.update(m.seat as int, seats[m.seat as int].next(m.granted))
}

/// The table after a schedule of steps, in order.
pub open spec fn play(seats: Seq<State>, schedule: Seq<Move>) -> Seq<State>
    decreases schedule.len(),
{
    if schedule.len() == 0 {
        seats
    } else {
        play(after(seats, schedule[0]), schedule.drop_first())
    }
}

/// Each step of the schedule is allowed at the moment it is taken.
pub open spec fn lawful(seats: Seq<State>, schedule: Seq<Move>) -> bool
    decreases schedule.len(),
{
    schedule.len() == 0 || (allowed(seats, schedule[0]) && lawful(
        after(seats, schedule[0]),
        schedule.drop_first(),
    ))
}

/// At a freshly laid table every fork is free.
pub proof fn lemma_laid_table_is_free(n: nat, meals: u64, retry_bound: u32)
    requires
        n >= 1,
    ensures
        all_wf(laid(n, meals, retry_bound)),
        exclusive(laid(n, meals, retry_bound)),
        forall|fork: nat| fork < n ==> is_free(laid(n, meals, retry_bound), fork),
{
}

/// A step that the locks allow keeps every fork in at most one hand.
pub proof fn lemma_step_keeps_exclusive(seats: Seq<State>, m: Move)
    requires
        seats.len() >= 1,
        all_wf(seats),
        exclusive(seats),
        allowed(seats, m),
    ensures
        after(seats, m).len() == seats.len(),
        all_wf(after(seats, m)),
        exclusive(after(seats, m)),
{
    let n = seats.len();
    let next = after(seats, m);
    let old_state = seats[m.seat as int];
    let new_state = old_state.next(m.granted);
    assert(old_state.wf());
    assert(new_state.wf());
    assert forall|seat: int| 0 <= seat < next.len() implies (#[trigger] next[seat]).wf() by {
        if seat != m.seat {
            assert(seats[seat].wf());
        }
    }
    assert forall|fork: nat| fork < next.len() implies #[trigger] holders(next, fork) <= 1 by {
        assert(holders(seats, fork) <= 1);
        assert(holders(seats, left_of(m.seat, n)) <= 1);
        assert(holders(seats, right_of(m.seat, n)) <= 1);
    }
}

/// Mutual exclusion: from a freshly laid table, however the philosophers'
/// steps interleave and however the locks answer, as long as they grant a
/// fork only while it is free, no fork is ever in two hands.
pub proof fn lemma_mutual_exclusion(seats: Seq<State>, schedule: Seq<Move>)
    requires
        seats.len() >= 1,
        all_wf(seats),
        exclusive(seats),
        lawful(seats, schedule),
    ensures
        play(seats, schedule).len() == seats.len(),
        all_wf(play(seats, schedule)),
        exclusive(play(seats, schedule)),
    decreases schedule.len(),
{
    if schedule.len() > 0 {
        lemma_step_keeps_exclusive(seats, schedule[0]);
        lemma_mutual_exclusion(after(seats, schedule[0]), schedule.drop_first());
    }
}

/// Once every philosopher has left the table, after however many meals,
/// every fork is free again.
pub proof fn lemma_retired_table_is_free(seats: Seq<State>)
    requires
        seats.len() >= 1,
        all_wf(seats),
        all_retired(seats),
    ensures
        forall|fork: nat| fork < seats.len() ==> is_free(seats, fork),
{
    let n = seats.len();
    assert forall|fork: nat| fork < n implies is_free(seats, fork) by {
        let other = seat_left_of_fork(fork, n) as int;
        assert(seats[fork as int].wf());
        assert(seats[other].wf());
        assert(seats[fork as int].phase == Phase::Retired);
        assert(seats[other].phase == Phase::Retired);
    }
}

} // verus!
