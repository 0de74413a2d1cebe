//! The ring of forks.
use vstd::prelude::*;
use parking_lot::lock_api::Mutex;
use parking_lot::RawMutex;
use crate::locks::{fresh_lock, lock_within, Fork, Held};
use crate::seating::{left_of, right_of};

verus! {

/// Why a table could not be laid or a seat not be taken.
#[derive(Clone, Copy, PartialEq, Eq, Debug, Structural)]
pub enum SetupError {
    /// A table needs at least one seat.
    NoSeats,
    /// The table has no seat of that number.
    NoSuchSeat,
}

/// A round table: as many forks as seats, each fork between two seats.
pub struct Ring {
    forks: Vec<Mutex<RawMutex, Fork>>,
}

impl Ring {
    #[verifier::type_invariant]
    spec fn inv(self) -> bool {
        self.forks@.len() >= 1
    }

    /// The number of seats, which is the number of forks.
    pub closed spec fn seats(&self) -> nat {
        self.forks@.len()
    }

    /// Lays a table of `n` seats with `n` forks, each of them free. A table
    /// without seats is refused.
    pub fn build(n: usize) -> (ring: Result<Ring, SetupError>)
        ensures
            ring is Err <==> n == 0,
            ring matches Err(e) ==> e == SetupError::NoSeats,
            ring matches Ok(r) ==> r.seats() == n,
    {
        if n == 0 {
            return Err(SetupError::NoSeats);
        }
        let mut forks: Vec<Mutex<RawMutex, Fork>> = Vec::new();
        let mut i: usize = 0;
        while i < n
            invariant
                i <= n,
                forks@.len() == i,
            decreases n - i,
        {
            forks.push(fresh_lock());
            i = i + 1;
        }
        Ok(Ring { forks })
    }

    /// The number of seats, which is the number of forks.
    pub fn len(&self) -> (n: usize)
        ensures
            n == self.seats(),
            n >= 1,
    {
        proof {
            use_type_invariant(self);
        }
        self.forks.len()
    }

    /// The numbers of the left and of the right fork of `seat`; none where
    /// the table has no such seat.
    pub fn left_and_right(&self, seat: usize) -> (forks: Option<(usize, usize)>)
        ensures
            forks is Some <==> seat < self.seats(),
            forks matches Some(pair) ==> {
                &&& pair.0 == left_of(seat as nat, self.seats())
                &&& pair.1 == right_of(seat as nat, self.seats())
                &&& pair.1 == (seat + 1) % (self.seats() as int)
                &&& pair.0 < self.seats()
                &&& pair.1 < self.seats()
            },
    {
        let n = self.forks.len();
        if seat < n {
            Some(crate::seating::left_and_right(seat, n))
        } else {
            None
        }
    }

    /// Waits for the fork of the given number during at most `wait_ms`
    /// milliseconds. What is obtained is that fork and no other; whether it
    /// is obtained depends on who else holds it.
    pub fn wait_for<'a>(&'a self, fork: usize, wait_ms: u32) -> (held: Option<Held<'a>>)
        ensures
            fork >= self.seats() ==> held is None,
            held matches Some(h) ==> h.fork() == fork && fork < self.seats(),
    {
        if fork < self.forks.len() {
            Held::of(fork, lock_within(&self.forks[fork], wait_ms))
        } else {
            None
        }
    }
}

} // verus!
