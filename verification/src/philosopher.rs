//! A philosopher at the table, with real forks in hand.
use vstd::prelude::*;
use crate::locks::Held;
use crate::policy::Policy;
use crate::protocol::{action_of, Action, Notice, Phase, State};
use crate::report::{indent_of, line_of, thought_of, words};
use crate::ring::{Ring, SetupError};
use crate::seating::{left_of, right_of};

verus! {

/// What a philosopher asks of its surroundings before it goes on.
#[derive(Clone, Copy, PartialEq, Eq, Debug, Structural)]
pub enum Request {
    /// Report the notice on the console.
    Say(Notice),
    /// Let that many milliseconds pass.
    Wait(u64),
    /// Hand the philosopher's thought to the journal.
    Publish,
    /// Nothing more: the philosopher has left the table.
    Retire,
}

/// A philosopher seated at a table.
pub struct Philosopher<'a> {
    name: String,
    seat: usize,
    ring: &'a Ring,
    policy: Policy,
    state: State,
    left: Option<Held<'a>>,
    right: Option<Held<'a>>,
}

impl<'a> Philosopher<'a> {
    /// The philosopher's name.
    pub closed spec fn name(&self) -> Seq<char> {
        self.name@
    }

    /// The number of the philosopher's seat.
    pub closed spec fn seat_number(&self) -> usize {
        self.seat
    }

    /// The table.
    pub closed spec fn ring(&self) -> &'a Ring {
        self.ring
    }

    /// The timing that the philosopher keeps to.
    pub closed spec fn policy(&self) -> Policy {
        self.policy
    }

    /// Where the philosopher stands.
    pub closed spec fn state(&self) -> State {
        self.state
    }

    /// Whether the left fork is in hand.
    pub closed spec fn holds_left(&self) -> bool {
        self.left is Some
    }

    /// Whether the right fork is in hand.
    pub closed spec fn holds_right(&self) -> bool {
        self.right is Some
    }

    /// The number of the fork in the left hand, if there is one.
    pub closed spec fn left_hand(&self) -> Option<usize> {
        match self.left {
            Some(held) => Some(held.fork()),
            None => None,
        }
    }

    /// The number of the fork in the right hand, if there is one.
    pub closed spec fn right_hand(&self) -> Option<usize> {
        match self.right {
            Some(held) => Some(held.fork()),
            None => None,
        }
    }

    /// The forks in hand are those of the philosopher's own seat: the left
    /// hand holds nothing or the left fork, the right hand nothing or the
    /// right fork.
    pub open spec fn holds_its_own(&self) -> bool {
        &&& self.left_hand() matches Some(fork) ==> fork == left_of(
            self.seat_number() as nat,
            self.ring().seats(),
        )
        &&& self.right_hand() matches Some(fork) ==> fork == right_of(
            self.seat_number() as nat,
            self.ring().seats(),
        )
        &&& self.left_hand() is Some <==> self.holds_left()
        &&& self.right_hand() is Some <==> self.holds_right()
    }

    /// The philosopher sits at a seat of its table, stands in a state that
    /// it can be in, and has in hand exactly the forks that its state says.
    pub closed spec fn wf(&self) -> bool {
        &&& self.seat < self.ring.seats()
        &&& self.state.wf()
        &&& self.state.retry_bound == self.policy.retry_bound
        &&& (self.left is Some) == self.state.holds_left
        &&& (self.right is Some) == self.state.holds_right
        &&& self.holds_its_own()
    }

    /// The fork that the philosopher waits for when it next goes on: its
    /// left fork or its right fork if an attempt on that one is due, and
    /// else none.
    pub open spec fn wanted(&self) -> Option<nat> {
        match action_of(self.state().acknowledged().phase) {
            Action::TryLeft => Some(left_of(self.seat_number() as nat, self.ring().seats())),
            Action::TryRight => Some(right_of(self.seat_number() as nat, self.ring().seats())),
            _ => None,
        }
    }

    /// Whether a fork is in hand that was not in hand before.
    pub open spec fn took_a_fork(&self, before: &Philosopher<'a>) -> bool {
        (self.holds_left() && !before.holds_left()) || (self.holds_right()
            && !before.holds_right())
    }

    /// The request is the one that the action under way calls for.
    pub open spec fn asks(&self, request: Request) -> bool {
        match action_of(self.state().phase) {
            Action::Say(notice) => request == Request::Say(notice),
            Action::Wait(pause) => request matches Request::Wait(ms) && self.policy().allows(
                pause,
                ms,
            ),
            Action::Publish => request == Request::Publish,
            Action::Retire => request == Request::Retire,
            _ => false,
        }
    }

    /// Seats a philosopher at `seat` with empty hands and `meals` rounds of
    /// thinking and eating ahead. A seat that the table does not have is
    /// refused.
    pub fn seat(ring: &'a Ring, seat: usize, name: &str, policy: Policy, meals: u64) -> (r: Result<
        Philosopher<'a>,
        SetupError,
    >)
        ensures
            r is Err <==> seat >= ring.seats(),
            r matches Err(e) ==> e == SetupError::NoSuchSeat,
            r matches Ok(p) ==> {
                &&& p.wf()
                &&& p.name() == name@
                &&& p.seat_number() == seat
                &&& p.ring() == ring
                &&& p.policy() == policy
                &&& p.state() == State::seated(meals, policy.retry_bound)
                &&& !p.holds_left()
                &&& !p.holds_right()
                &&& p.holds_its_own()
            },
    {
        if seat >= ring.len() {
            return Err(SetupError::NoSuchSeat);
        }
        Ok(
            Philosopher {
                name: name.to_owned(),
                seat,
                ring,
                policy,
                state: State::start(meals, policy.retry_bound),
                left: None,
                right: None,
            },
        )
    }

    /// Goes on until the philosopher next needs its surroundings, and says
    /// what it needs of them.
    ///
    /// The request of the call before counts as met. If an action on the
    /// forks is due it is carried out here: a fork is waited for during the
    /// time that the policy gives, or given back. Whether a fork that is
    /// waited for is obtained is up to the table; the state afterwards is
    /// the one that the protocol gives for what was obtained.
    pub fn resume(&mut self) -> (request: Request)
        requires
            old(self).wf(),
        ensures
            final(self).wf(),
            final(self).state() == old(self).state().resumed(final(self).took_a_fork(old(self))),
            final(self).asks(request),
            final(self).holds_left() == final(self).state().holds_left,
            final(self).holds_right() == final(self).state().holds_right,
            final(self).holds_its_own(),
            final(self).name() == old(self).name(),
            final(self).seat_number() == old(self).seat_number(),
            final(self).ring() == old(self).ring(),
            final(self).policy() == old(self).policy(),
    {
        let ended = self.state.acknowledge();
        let wanted = self.wanted_fork();
        let mut granted = false;
        match ended.action() {
            Action::TryLeft => {
                self.left = self.ring.wait_for(wanted.unwrap(), self.policy.lock_wait_ms);
                granted = self.left.is_some();
            },
            Action::TryRight => {
                self.right = self.ring.wait_for(wanted.unwrap(), self.policy.lock_wait_ms);
                granted = self.right.is_some();
            },
            Action::ReleaseLeft => {
                self.left = None;
            },
            Action::ReleaseRight => {
                self.right = None;
            },
            Action::ReleaseBoth => {
                self.left = None;
                self.right = None;
            },
            _ => {},
        }
        self.state = if ended.outward() {
            ended
        } else {
            ended.step(granted)
        };
        match self.state.action() {
            Action::Say(notice) => Request::Say(notice),
            Action::Wait(pause) => Request::Wait(self.policy.pause_ms(pause)),
            Action::Publish => Request::Publish,
            _ => Request::Retire,
        }
    }

    /// The number of the fork that the philosopher waits for when it next
    /// goes on, if an attempt is due then.
    pub fn wanted_fork(&self) -> (fork: Option<usize>)
        requires
            self.wf(),
        ensures
            fork is Some <==> self.wanted() is Some,
            fork matches Some(number) ==> self.wanted() == Some(number as nat)
                && number < self.ring().seats(),
    {
        let n = self.ring.len();
        match self.state.acknowledge().action() {
            Action::TryLeft => Some(crate::seating::left(self.seat, n)),
            Action::TryRight => Some(crate::seating::right(self.seat, n)),
            _ => None,
        }
    }

    /// Whether the philosopher has left the table.
    pub fn retired(&self) -> (r: bool)
        ensures
            r == (self.state().phase == Phase::Retired),
    {
        self.state.retired()
    }

    /// Where the philosopher stands.
    pub fn current(&self) -> (s: State)
        ensures
            s == self.state(),
    {
        self.state
    }

    /// The console line on which the philosopher reports a notice: its name
    /// and the words, indented by one column for each seat before its own.
    pub fn console_line(&self, notice: Notice) -> (out: String)
        ensures
            out@ == line_of(indent_of(self.seat_number()) as nat, self.name(), words(notice)),
    {
        crate::report::console_line(
            crate::report::indent_for(self.seat),
            self.name.as_str(),
            crate::report::text(notice),
        )
    }

    /// The thought that the philosopher hands to the journal.
    pub fn thought(&self) -> (out: String)
        ensures
            out@ == thought_of(self.name()),
    {
        crate::report::thought(self.name.as_str())
    }
}

} // verus!
