//! The forks themselves: mutual-exclusion locks that can be waited for
//! during a bounded time.
use vstd::prelude::*;
use parking_lot::lock_api::Mutex;
use parking_lot::lock_api::MutexGuard;
use parking_lot::RawMutex;

verus! {

/// `parking_lot::lock_api::Mutex`, the lock of a fork. Nothing of what is
/// inside it is known here.
#[verifier::external_type_specification]
#[verifier::external_body]
#[verifier::reject_recursive_types(R)]
#[verifier::reject_recursive_types(T)]
pub struct ExMutex<R, T: ?Sized>(Mutex<R, T>);

/// The grip on a lock. It wraps `parking_lot::MutexGuard`, which Verus
/// cannot be told of as it stands: the lock is released when this value is
/// dropped.
#[verifier::external_body]
pub struct Grip<'a> {
    guard: MutexGuard<'a, RawMutex, Fork>,
}

/// `parking_lot::RawMutex`, the kind of lock that the forks use.
#[verifier::external_type_specification]
#[verifier::external_body]
pub struct ExRawMutex(RawMutex);

/// A fork. It carries nothing: only its lock matters.
pub struct Fork;

/// `parking_lot::Mutex::new`: a new lock around a fork. Nothing is claimed of
/// the result.
#[verifier::external_body]
pub(crate) fn fresh_lock() -> Mutex<RawMutex, Fork> {
    Mutex::new(Fork)
}

/// `parking_lot::Mutex::try_lock_for`: waits for the lock during at most
/// `wait_ms` milliseconds and hands it out held, or hands out nothing when
/// the time is over. Nothing is claimed of the result, which depends on what
/// the other holders do. The wait is counted in 32 bits so that its end can
/// always be told: with none to tell, the call would wait without bound.
#[verifier::external_body]
pub(crate) fn lock_within<'a>(lock: &'a Mutex<RawMutex, Fork>, wait_ms: u32) -> Option<Grip<'a>> {
    match lock.try_lock_for(std::time::Duration::from_millis(u64::from(wait_ms))) {
        Some(guard) => Some(Grip { guard }),
        None => None,
    }
}

/// A fork in hand: its number at the table, and the grip on its lock. The
/// fork goes back to the table when this value is dropped.
pub struct Held<'a> {
    fork: usize,
    grip: Grip<'a>,
}

impl<'a> Held<'a> {
    /// The number of the fork.
    pub closed spec fn fork(&self) -> usize {
        self.fork
    }

    /// What the wait for the fork of the given number has brought: that
    /// fork in hand if its lock was obtained, and nothing if it was not.
    pub(crate) fn of(fork: usize, grip: Option<Grip<'a>>) -> (held: Option<Held<'a>>)
        ensures
            held is Some <==> grip is Some,
            held matches Some(h) ==> h.fork() == fork,
    {
        match grip {
            Some(grip) => Some(Held { fork, grip }),
            None => None,
        }
    }

    /// The number of the fork.
    pub fn number(&self) -> (fork: usize)
        ensures
            fork == self.fork(),
    {
        self.fork
    }
}

} // verus!
