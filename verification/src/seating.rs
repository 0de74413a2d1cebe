//! The geometry of the ring: which fork lies to the left and to the right of
//! each seat.
use vstd::prelude::*;

verus! {

/// The fork to the left of `seat` at a table of `n` seats: the one with the
/// seat's own number.
pub open spec fn left_of(seat: nat, n: nat) -> nat {
    seat
}

/// The fork to the right of `seat` at a table of `n` seats: the left fork of
/// the next seat, the table being round.
pub open spec fn right_of(seat: nat, n: nat) -> nat {
    if seat + 1 == n {
        0
    } else {
        seat + 1
    }
}

/// The seat whose right fork is `fork`.
pub open spec fn seat_left_of_fork(fork: nat, n: nat) -> nat {
    if fork == 0 {
        (n - 1) as nat
    } else {
        (fork - 1) as nat
    }
}

/// Index of the left fork of `seat`.
pub fn left(seat: usize, n: usize) -> (fork: usize)
    requires
        seat < n,
    ensures
        fork == left_of(seat as nat, n as nat),
        fork < n,
{
    seat
}

/// Index of the right fork of `seat`.
pub fn right(seat: usize, n: usize) -> (fork: usize)
    requires
        seat < n,
    ensures
        fork == right_of(seat as nat, n as nat),
        fork == (seat + 1) % (n as int),
        fork < n,
{
    proof {
        lemma_right_is_next_left(seat as nat, n as nat);
    }
    if seat + 1 == n {
        0
    } else {
        seat + 1
    }
}

/// Both forks of `seat`, the left one first.
pub fn left_and_right(seat: usize, n: usize) -> (forks: (usize, usize))
    requires
        seat < n,
    ensures
        forks.0 == left_of(seat as nat, n as nat),
        forks.1 == right_of(seat as nat, n as nat),
        forks.1 == (seat + 1) % (n as int),
        forks.0 < n,
        forks.1 < n,
{
    (left(seat, n), right(seat, n))
}

/// Around the table, the right fork of every seat is the left fork of the
/// next seat, counted modulo the number of seats.
pub proof fn lemma_right_is_next_left(seat: nat, n: nat)
    requires
        seat < n,
    ensures
        right_of(seat, n) == left_of((seat + 1) % n, n),
        right_of(seat, n) == (seat + 1) % n,
        left_of(seat, n) < n,
        right_of(seat, n) < n,
{
    if seat + 1 == n {
        vstd::arithmetic::div_mod::lemma_mod_self_0(n as int);
    } else {
        vstd::arithmetic::div_mod::lemma_small_mod(seat + 1, n);
    }
}

/// No fork is handed to two seats on the same side: different seats have
/// different left forks and different right forks, so a table of `n` seats
/// uses exactly `n` forks.
pub proof fn lemma_forks_are_distinct(a: nat, b: nat, n: nat)
    requires
        a < n,
        b < n,
        a != b,
    ensures
        left_of(a, n) != left_of(b, n),
        right_of(a, n) != right_of(b, n),
{
}

/// Every fork is the left fork of exactly one seat and the right fork of
/// exactly one seat.
pub proof fn lemma_fork_has_two_neighbours(fork: nat, n: nat)
    requires
        fork < n,
    ensures
        left_of(fork, n) == fork,
        seat_left_of_fork(fork, n) < n,
        right_of(seat_left_of_fork(fork, n), n) == fork,
        forall|seat: nat| seat < n && left_of(seat, n) == fork ==> seat == fork,
        forall|seat: nat|
            seat < n && right_of(seat, n) == fork ==> seat == seat_left_of_fork(fork, n),
{
}

/// With at least two seats, the two forks of a seat are different forks.
pub proof fn lemma_own_forks_differ(seat: nat, n: nat)
    requires
        2 <= n,
        seat < n,
    ensures
        left_of(seat, n) != right_of(seat, n),
{
}

} // verus!
