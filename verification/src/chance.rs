//! Random durations.
use vstd::prelude::*;
use rand::Rng;

verus! {

/// `rand::Rng::gen_range` on `rand::thread_rng()`, with the half-open range
/// `lo..hi`: some number of that range. Which one is left to chance, so two
/// calls may differ. The range must not be empty, or the call panics.
#[verifier::external_body]
pub(crate) fn uniform(lo: u64, hi: u64) -> (r: u64)
    requires
        lo < hi,
    ensures
        lo <= r < hi,
{
    rand::thread_rng().gen_range(lo..hi)
}

/// A range of durations in milliseconds, the lower bound included and the
/// upper one not. It is never empty.
#[derive(Clone, Copy, Debug)]
pub struct Span {
    lo: u64,
    hi: u64,
}

impl Span {
    #[verifier::type_invariant]
    spec fn inv(self) -> bool {
        self.lo < self.hi
    }

    /// The shortest duration of the range.
    pub closed spec fn lo(self) -> u64 {
        self.lo
    }

    /// The bound that every duration of the range stays under.
    pub closed spec fn hi(self) -> u64 {
        self.hi
    }

    /// Whether `ms` lies in the range.
    pub open spec fn contains(self, ms: u64) -> bool {
        self.lo() <= ms < self.hi()
    }

    /// The range from `lo` up to, but without, `hi`; none where that range
    /// would be empty.
    pub fn new(lo: u64, hi: u64) -> (span: Option<Span>)
        ensures
            span is Some <==> lo < hi,
            span matches Some(s) ==> s.lo() == lo && s.hi() == hi,
    {
        if lo < hi {
            Some(Span { lo, hi })
        } else {
            None
        }
    }

    /// The shortest duration of the range.
    pub fn shortest(&self) -> (ms: u64)
        ensures
            ms == self.lo(),
            self.contains(ms),
    {
        proof {
            use_type_invariant(self);
        }
        self.lo
    }

    /// The bound that every duration of the range stays under.
    pub fn bound(&self) -> (ms: u64)
        ensures
            ms == self.hi(),
            self.lo() < ms,
    {
        proof {
            use_type_invariant(self);
        }
        self.hi
    }

    /// A duration of the range, picked at random.
    pub fn draw(&self) -> (ms: u64)
        ensures
            self.contains(ms),
    {
        proof {
            use_type_invariant(self);
        }
        uniform(self.lo, self.hi)
    }
}

} // verus!
