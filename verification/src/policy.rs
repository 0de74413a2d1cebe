//! The timing of a philosopher's life and the bound on its attempts.
use vstd::prelude::*;
use crate::chance::Span;
use crate::protocol::Pause;

verus! {

/// How long each pause lasts, how long a fork is waited for, and how many
/// rounds of attempts a meal may use.
#[derive(Clone, Copy, Debug)]
pub struct Policy {
    /// How long thinking takes.
    pub think: Span,
    /// The pause between the attempt on the left fork and the attempt on
    /// the right one.
    pub jitter: Span,
    /// The pause right after a single fork went back, in milliseconds.
    pub settle_ms: u64,
    /// The pause before the next round of attempts.
    pub back_off: Span,
    /// How long eating takes.
    pub eat: Span,
    /// How long a fork is waited for at most, in milliseconds.
    pub lock_wait_ms: u32,
    /// The rounds of attempts that a meal may use.
    pub retry_bound: u32,
}

impl Policy {
    /// Whether a pause of the given kind may last `ms` milliseconds.
    pub open spec fn allows(self, pause: Pause, ms: u64) -> bool {
        match pause {
            Pause::Think => self.think.contains(ms),
            Pause::Jitter => self.jitter.contains(ms),
            Pause::Settle => ms == self.settle_ms,
            Pause::BackOff => self.back_off.contains(ms),
            Pause::Eat => self.eat.contains(ms),
        }
    }

    /// The timing of the classic table: thinking and eating take 10 to 30
    /// ms, the jitter 1 to 100 ms, the back-off 1 to 1000 ms; a fork is
    /// waited for during 100 ms, a returned fork settles for 10 ms, and a
    /// meal may use three rounds of attempts.
    pub open spec fn is_standard(self) -> bool {
        &&& self.think.lo() == 10 && self.think.hi() == 30
        &&& self.jitter.lo() == 1 && self.jitter.hi() == 100
        &&& self.settle_ms == 10
        &&& self.back_off.lo() == 1 && self.back_off.hi() == 1000
        &&& self.eat.lo() == 10 && self.eat.hi() == 30
        &&& self.lock_wait_ms == 100
        &&& self.retry_bound == 3
    }

    /// The timing of the classic table.
    pub fn standard() -> (policy: Policy)
        ensures
            policy.is_standard(),
    {
        Policy {
            think: Span::new(10, 30).unwrap(),
            jitter: Span::new(1, 100).unwrap(),
            settle_ms: 10,
            back_off: Span::new(1, 1000).unwrap(),
            eat: Span::new(10, 30).unwrap(),
            lock_wait_ms: 100,
            retry_bound: 3,
        }
    }

    /// How long the next pause of the given kind lasts: a random duration
    /// of its range, or the fixed time that a returned fork settles.
    pub fn pause_ms(&self, pause: Pause) -> (ms: u64)
        ensures
            self.allows(pause, ms),
    {
        match pause {
            Pause::Think => self.think.draw(),
            Pause::Jitter => self.jitter.draw(),
            Pause::Settle => self.settle_ms,
            Pause::BackOff => self.back_off.draw(),
            Pause::Eat => self.eat.draw(),
        }
    }
}

} // verus!
