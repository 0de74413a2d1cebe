//! The life of one philosopher as a finite state machine.
//!
//! A philosopher thinks, then tries to eat, a fixed number of times. To eat
//! it waits a bounded time for its left fork, lets a short random time pass,
//! waits a bounded time for its right fork, and eats only if it then holds
//! both. With one fork only it returns that fork, backs off for a random
//! time and tries again, up to a bound; then it gives the meal up.
//!
//! The machine decides; it neither locks, sleeps nor prints. Each state names
//! the one action that is under way, and [`State::step`] is told how that
//! action ended.
use vstd::prelude::*;

verus! {

/// What a philosopher reports on the console.
#[derive(Clone, Copy, PartialEq, Eq, Debug, Structural)]
pub enum Notice {
    Thinking,
    TryingBoth,
    GotLeft,
    GotRight,
    GotBoth,
    ReturningLeft,
    ReturningRight,
    Eating,
    ReturningForks,
    GivingUp,
}

/// The pauses of a philosopher's life.
#[derive(Clone, Copy, PartialEq, Eq, Debug, Structural)]
pub enum Pause {
    /// Thinking.
    Think,
    /// Between the attempt on the left fork and the attempt on the right.
    Jitter,
    /// Right after a single fork went back.
    Settle,
    /// Before the next round of attempts.
    BackOff,
    /// Eating, both forks in hand.
    Eat,
}

/// One action of a philosopher.
#[derive(Clone, Copy, PartialEq, Eq, Debug, Structural)]
pub enum Action {
    /// Take the seat: nothing has happened yet.
    Sit,
    /// Report a notice on the console.
    Say(Notice),
    /// Let a pause of the given kind pass.
    Wait(Pause),
    /// Hand the thought of this round to the journal.
    Publish,
    /// Wait a bounded time for the left fork.
    TryLeft,
    /// Wait a bounded time for the right fork.
    TryRight,
    /// Give the left fork back.
    ReleaseLeft,
    /// Give the right fork back.
    ReleaseRight,
    /// Give both forks back.
    ReleaseBoth,
    /// Leave the table: every meal was eaten or given up.
    Retire,
}

/// Where a philosopher stands: each phase is one action under way.
#[derive(Clone, Copy, PartialEq, Eq, Debug, Structural)]
pub enum Phase {
    Seated,
    SayThinking,
    Thinking,
    Publishing,
    SayTrying,
    TryingLeft,
    SayGotLeft,
    Jitter,
    TryingRight,
    SayGotRight,
    SayGotBoth,
    SayEating,
    Eating,
    SayReturning,
    ReleasingBoth,
    SayReturningLeft,
    ReleasingLeft,
    SayReturningRight,
    ReleasingRight,
    Settling,
    BackingOff,
    SayGivingUp,
    Retired,
}

/// The action that is under way in a phase.
pub open spec fn action_of(phase: Phase) -> Action {
    match phase {
        Phase::Seated => Action::Sit,
        Phase::SayThinking => Action::Say(Notice::Thinking),
        Phase::Thinking => Action::Wait(Pause::Think),
        Phase::Publishing => Action::Publish,
        Phase::SayTrying => Action::Say(Notice::TryingBoth),
        Phase::TryingLeft => Action::TryLeft,
        Phase::SayGotLeft => Action::Say(Notice::GotLeft),
        Phase::Jitter => Action::Wait(Pause::Jitter),
        Phase::TryingRight => Action::TryRight,
        Phase::SayGotRight => Action::Say(Notice::GotRight),
        Phase::SayGotBoth => Action::Say(Notice::GotBoth),
        Phase::SayEating => Action::Say(Notice::Eating),
        Phase::Eating => Action::Wait(Pause::Eat),
        Phase::SayReturning => Action::Say(Notice::ReturningForks),
        Phase::ReleasingBoth => Action::ReleaseBoth,
        Phase::SayReturningLeft => Action::Say(Notice::ReturningLeft),
        Phase::ReleasingLeft => Action::ReleaseLeft,
        Phase::SayReturningRight => Action::Say(Notice::ReturningRight),
        Phase::ReleasingRight => Action::ReleaseRight,
        Phase::Settling => Action::Wait(Pause::Settle),
        Phase::BackingOff => Action::Wait(Pause::BackOff),
        Phase::SayGivingUp => Action::Say(Notice::GivingUp),
        Phase::Retired => Action::Retire,
    }
}

/// The actions that a philosopher leaves to its surroundings: speaking,
/// pausing, publishing, leaving. The others concern the forks.
pub open spec fn is_outward(action: Action) -> bool {
    action is Say || action is Wait || action is Publish || action is Retire
}

/// The phases in which no fork may be in hand: before and after a meal, at
/// the start of a round of attempts, and from the return of a single fork to
/// the next round.
pub open spec fn empty_handed_phase(phase: Phase) -> bool {
    matches!(
        phase,
        Phase::Seated | Phase::SayThinking | Phase::Thinking | Phase::Publishing
            | Phase::SayTrying | Phase::TryingLeft | Phase::Settling | Phase::BackingOff
            | Phase::SayGivingUp | Phase::Retired
    )
}

/// The phases of a meal in which both forks are in hand.
pub open spec fn both_handed_phase(phase: Phase) -> bool {
    matches!(
        phase,
        Phase::SayGotBoth | Phase::SayEating | Phase::Eating | Phase::SayReturning
            | Phase::ReleasingBoth
    )
}

/// The phases that belong to a round of attempts, from its announcement to
/// the end of the back-off or of the meal.
pub open spec fn round_phase(phase: Phase) -> bool {
    !matches!(
        phase,
        Phase::Seated | Phase::SayThinking | Phase::Thinking | Phase::Publishing
            | Phase::SayGivingUp | Phase::Retired
    )
}

/// The state of one philosopher.
#[derive(Clone, Copy, PartialEq, Eq, Debug, Structural)]
pub struct State {
    /// The action under way.
    pub phase: Phase,
    /// Whether the left fork is in hand.
    pub holds_left: bool,
    /// Whether the right fork is in hand.
    pub holds_right: bool,
    /// Rounds of attempts that this meal may still use, the current one
    /// included.
    pub tries_left: u32,
    /// Meals still to come, the current one included.
    pub meals_left: u64,
    /// Rounds of attempts that each meal may use.
    pub retry_bound: u32,
}

impl State {
    /// The states that a philosopher can be in.
    pub open spec fn wf(self) -> bool {
        &&& empty_handed_phase(self.phase) ==> !self.holds_left && !self.holds_right
        &&& both_handed_phase(self.phase) ==> self.holds_left && self.holds_right
        &&& self.phase == Phase::SayGotLeft ==> self.holds_left && !self.holds_right
        &&& self.phase == Phase::Jitter ==> !self.holds_right
        &&& self.phase == Phase::TryingRight ==> !self.holds_right
        &&& self.phase == Phase::SayGotRight ==> self.holds_right
        &&& (self.phase == Phase::SayReturningLeft || self.phase == Phase::ReleasingLeft)
            ==> self.holds_left && !self.holds_right
        &&& (self.phase == Phase::SayReturningRight || self.phase == Phase::ReleasingRight)
            ==> !self.holds_left && self.holds_right
        &&& round_phase(self.phase) ==> 1 <= self.tries_left <= self.retry_bound
        &&& self.phase != Phase::Seated && self.phase != Phase::Retired ==> self.meals_left >= 1
        &&& self.phase == Phase::Retired ==> self.meals_left == 0
    }

    /// Exactly one of the two forks is in hand.
    pub open spec fn partial_hold(self) -> bool {
        self.holds_left != self.holds_right
    }

    /// The state of a philosopher who has just been seated, with `meals`
    /// rounds of thinking and eating ahead and `retry_bound` rounds of
    /// attempts for each meal.
    pub open spec fn seated(meals: u64, retry_bound: u32) -> State {
        State {
            phase: Phase::Seated,
            holds_left: false,
            holds_right: false,
            tries_left: 0,
            meals_left: meals,
            retry_bound,
        }
    }

    /// This state in another phase.
    pub open spec fn at(self, phase: Phase) -> State {
        State { phase, ..self }
    }

    /// The state at the start of a meal, once the thought is published.
    pub open spec fn meal_begun(self) -> State {
        State {
            phase: if self.retry_bound == 0 {
                Phase::SayGivingUp
            } else {
                Phase::SayTrying
            },
            tries_left: self.retry_bound,
            ..self
        }
    }

    /// The state after a meal, eaten or given up: no fork in hand, one meal
    /// less to come.
    pub open spec fn meal_ended(self) -> State {
        if self.meals_left <= 1 {
            State {
                phase: Phase::Retired,
                holds_left: false,
                holds_right: false,
                meals_left: 0,
                ..self
            }
        } else {
            State {
                phase: Phase::SayThinking,
                holds_left: false,
                holds_right: false,
                meals_left: (self.meals_left - 1) as u64,
                ..self
            }
        }
    }

    /// The state after a round of attempts that failed, once the back-off is
    /// over: one round less, and the meal given up when none is left.
    pub open spec fn round_failed(self) -> State {
        if self.tries_left <= 1 {
            State { phase: Phase::SayGivingUp, tries_left: 0, ..self }
        } else {
            State { phase: Phase::SayTrying, tries_left: (self.tries_left - 1) as u32, ..self }
        }
    }

    /// The state that follows when the action under way has ended. `granted`
    /// tells whether a fork that was waited for was obtained; it counts only
    /// in the two phases that wait for a fork.
    pub open spec fn next(self, granted: bool) -> State {
        match self.phase {
            Phase::Seated => if self.meals_left == 0 {
                self.at(Phase::Retired)
            } else {
                self.at(Phase::SayThinking)
            },
            Phase::SayThinking => self.at(Phase::Thinking),
            Phase::Thinking => self.at(Phase::Publishing),
            Phase::Publishing => self.meal_begun(),
            Phase::SayTrying => self.at(Phase::TryingLeft),
            Phase::TryingLeft => if granted {
                State { phase: Phase::SayGotLeft, holds_left: true, ..self }
            } else {
                self.at(Phase::Jitter)
            },
            Phase::SayGotLeft => self.at(Phase::Jitter),
            Phase::Jitter => self.at(Phase::TryingRight),
            Phase::TryingRight => if granted {
                State { phase: Phase::SayGotRight, holds_right: true, ..self }
            } else if self.holds_left {
                self.at(Phase::SayReturningLeft)
            } else {
                self.at(Phase::BackingOff)
            },
            Phase::SayGotRight => if self.holds_left {
                self.at(Phase::SayGotBoth)
            } else {
                self.at(Phase::SayReturningRight)
            },
            Phase::SayGotBoth => self.at(Phase::SayEating),
            Phase::SayEating => self.at(Phase::Eating),
            Phase::Eating => self.at(Phase::SayReturning),
            Phase::SayReturning => self.at(Phase::ReleasingBoth),
            Phase::ReleasingBoth => self.meal_ended(),
            Phase::SayReturningLeft => self.at(Phase::ReleasingLeft),
            Phase::ReleasingLeft => State { phase: Phase::Settling, holds_left: false, ..self },
            Phase::SayReturningRight => self.at(Phase::ReleasingRight),
            Phase::ReleasingRight => State { phase: Phase::Settling, holds_right: false, ..self },
            Phase::Settling => self.at(Phase::BackingOff),
            Phase::BackingOff => self.round_failed(),
            Phase::SayGivingUp => self.meal_ended(),
            Phase::Retired => self,
        }
    }

    /// The state once an outward action under way has ended; an action on
    /// the forks stays under way.
    pub open spec fn acknowledged(self) -> State {
        if is_outward(action_of(self.phase)) {
            self.next(false)
        } else {
            self
        }
    }

    /// The state in which a philosopher next turns to its surroundings:
    /// an outward action under way is ended, and the action on the forks
    /// that may follow is carried out; `granted` tells how it ended.
    pub open spec fn resumed(self, granted: bool) -> State {
        let ended = self.acknowledged();
        if is_outward(action_of(ended.phase)) {
            ended
        } else {
            ended.next(granted)
        }
    }

    /// Seats a philosopher with `meals` rounds of thinking and eating ahead
    /// and `retry_bound` rounds of attempts for each meal.
    pub fn start(meals: u64, retry_bound: u32) -> (s: State)
        ensures
            s == State::seated(meals, retry_bound),
            s.wf(),
    {
        State {
            phase: Phase::Seated,
            holds_left: false,
            holds_right: false,
            tries_left: 0,
            meals_left: meals,
            retry_bound,
        }
    }

    /// The action under way.
    pub fn action(&self) -> (a: Action)
        ensures
            a == action_of(self.phase),
    {
        match self.phase {
            Phase::Seated => Action::Sit,
            Phase::SayThinking => Action::Say(Notice::Thinking),
            Phase::Thinking => Action::Wait(Pause::Think),
            Phase::Publishing => Action::Publish,
            Phase::SayTrying => Action::Say(Notice::TryingBoth),
            Phase::TryingLeft => Action::TryLeft,
            Phase::SayGotLeft => Action::Say(Notice::GotLeft),
            Phase::Jitter => Action::Wait(Pause::Jitter),
            Phase::TryingRight => Action::TryRight,
            Phase::SayGotRight => Action::Say(Notice::GotRight),
            Phase::SayGotBoth => Action::Say(Notice::GotBoth),
            Phase::SayEating => Action::Say(Notice::Eating),
            Phase::Eating => Action::Wait(Pause::Eat),
            Phase::SayReturning => Action::Say(Notice::ReturningForks),
            Phase::ReleasingBoth => Action::ReleaseBoth,
            Phase::SayReturningLeft => Action::Say(Notice::ReturningLeft),
            Phase::ReleasingLeft => Action::ReleaseLeft,
            Phase::SayReturningRight => Action::Say(Notice::ReturningRight),
            Phase::ReleasingRight => Action::ReleaseRight,
            Phase::Settling => Action::Wait(Pause::Settle),
            Phase::BackingOff => Action::Wait(Pause::BackOff),
            Phase::SayGivingUp => Action::Say(Notice::GivingUp),
            Phase::Retired => Action::Retire,
        }
    }

    /// Whether the action under way is left to the surroundings.
    pub fn outward(&self) -> (r: bool)
        ensures
            r == is_outward(action_of(self.phase)),
    {
        match self.action() {
            Action::Say(_) | Action::Wait(_) | Action::Publish | Action::Retire => true,
            _ => false,
        }
    }

    /// Whether the philosopher has left the table.
    pub fn retired(&self) -> (r: bool)
        ensures
            r == (self.phase == Phase::Retired),
    {
        self.phase == Phase::Retired
    }

    fn end_meal(self) -> (s: State)
        ensures
            s == self.meal_ended(),
    {
        if self.meals_left <= 1 {
            State {
                phase: Phase::Retired,
                holds_left: false,
                holds_right: false,
                tries_left: self.tries_left,
                meals_left: 0,
                retry_bound: self.retry_bound,
            }
        } else {
            State {
                phase: Phase::SayThinking,
                holds_left: false,
                holds_right: false,
                tries_left: self.tries_left,
                meals_left: self.meals_left - 1,
                retry_bound: self.retry_bound,
            }
        }
    }

    fn to(self, phase: Phase) -> (s: State)
        ensures
            s == self.at(phase),
    {
        State {
            phase,
            holds_left: self.holds_left,
            holds_right: self.holds_right,
            tries_left: self.tries_left,
            meals_left: self.meals_left,
            retry_bound: self.retry_bound,
        }
    }

    fn holding(self, phase: Phase, left: bool, right: bool) -> (s: State)
        ensures
            s == (State { phase, holds_left: left, holds_right: right, ..self }),
    {
        State {
            phase,
            holds_left: left,
            holds_right: right,
            tries_left: self.tries_left,
            meals_left: self.meals_left,
            retry_bound: self.retry_bound,
        }
    }

    fn with_tries(self, phase: Phase, tries_left: u32) -> (s: State)
        ensures
            s == (State { phase, tries_left, ..self }),
    {
        State {
            phase,
            holds_left: self.holds_left,
            holds_right: self.holds_right,
            tries_left,
            meals_left: self.meals_left,
            retry_bound: self.retry_bound,
        }
    }

    /// Ends the action under way and moves to the next one. `granted` tells
    /// whether a fork that was waited for was obtained; it counts only in the
    /// two phases that wait for a fork.
    pub fn step(self, granted: bool) -> (s: State)
        ensures
            s == self.next(granted),
            self.wf() ==> s.wf(),
    {
        match self.phase {
            Phase::Seated => if self.meals_left == 0 {
                self.to(Phase::Retired)
            } else {
                self.to(Phase::SayThinking)
            },
            Phase::SayThinking => self.to(Phase::Thinking),
            Phase::Thinking => self.to(Phase::Publishing),
            Phase::Publishing => if self.retry_bound == 0 {
                self.with_tries(Phase::SayGivingUp, 0)
            } else {
                self.with_tries(Phase::SayTrying, self.retry_bound)
            },
            Phase::SayTrying => self.to(Phase::TryingLeft),
            Phase::TryingLeft => if granted {
                self.holding(Phase::SayGotLeft, true, self.holds_right)
            } else {
                self.to(Phase::Jitter)
            },
            Phase::SayGotLeft => self.to(Phase::Jitter),
            Phase::Jitter => self.to(Phase::TryingRight),
            Phase::TryingRight => if granted {
                self.holding(Phase::SayGotRight, self.holds_left, true)
            } else if self.holds_left {
                self.to(Phase::SayReturningLeft)
            } else {
                self.to(Phase::BackingOff)
            },
            Phase::SayGotRight => if self.holds_left {
                self.to(Phase::SayGotBoth)
            } else {
                self.to(Phase::SayReturningRight)
            },
            Phase::SayGotBoth => self.to(Phase::SayEating),
            Phase::SayEating => self.to(Phase::Eating),
            Phase::Eating => self.to(Phase::SayReturning),
            Phase::SayReturning => self.to(Phase::ReleasingBoth),
            Phase::ReleasingBoth => self.end_meal(),
            Phase::SayReturningLeft => self.to(Phase::ReleasingLeft),
            Phase::ReleasingLeft => self.holding(Phase::Settling, false, self.holds_right),
            Phase::SayReturningRight => self.to(Phase::ReleasingRight),
            Phase::ReleasingRight => self.holding(Phase::Settling, self.holds_left, false),
            Phase::Settling => self.to(Phase::BackingOff),
            Phase::BackingOff => if self.tries_left <= 1 {
                self.with_tries(Phase::SayGivingUp, 0)
            } else {
                self.with_tries(Phase::SayTrying, self.tries_left - 1)
            },
            Phase::SayGivingUp => self.end_meal(),
            Phase::Retired => self,
        }
    }

    /// Ends an outward action that is under way; an action on the forks
    /// stays under way.
    pub fn acknowledge(self) -> (s: State)
        ensures
            s == self.acknowledged(),
            self.wf() ==> s.wf(),
    {
        if self.outward() {
            self.step(false)
        } else {
            self
        }
    }

    /// Moves to the point at which the philosopher next turns to its
    /// surroundings: an outward action under way is ended, and the action
    /// on the forks that may follow is carried out; `granted` tells how it
    /// ended.
    pub fn resume(self, granted: bool) -> (s: State)
        ensures
            s == self.resumed(granted),
            is_outward(action_of(s.phase)),
            self.wf() ==> s.wf(),
    {
        let ended = self.acknowledge();
        if ended.outward() {
            ended
        } else {
            ended.step(granted)
        }
    }
}

} // verus!
