use dining_philosophers::chance::Span;
use dining_philosophers::journal::{closing_entry, printed};
use dining_philosophers::philosopher::{Philosopher, Request};
use dining_philosophers::policy::Policy;
use dining_philosophers::protocol::{Notice, Phase};
use dining_philosophers::report::summary;
use dining_philosophers::ring::{Ring, SetupError};

/// A policy without waiting: every pause lasts no time and a fork is not
/// waited for.
fn brisk(retry_bound: u32) -> Policy {
    let none = Span::new(0, 1).unwrap();
    Policy {
        think: none,
        jitter: none,
        settle_ms: 0,
        back_off: none,
        eat: none,
        lock_wait_ms: 0,
        retry_bound,
    }
}

/// The classic timing, but a fork is not waited for: the clock of these
/// tests is counted, not real, so nobody could give a fork back meanwhile.
fn classic() -> Policy {
    Policy { lock_wait_ms: 0, ..Policy::standard() }
}

fn notices(requests: &[Request]) -> Vec<Notice> {
    requests
        .iter()
        .filter_map(|request| match request {
            Request::Say(notice) => Some(*notice),
            _ => None,
        })
        .collect()
}

fn to_the_end(philosopher: &mut Philosopher) -> Vec<Request> {
    let mut requests = Vec::new();
    loop {
        let request = philosopher.resume();
        requests.push(request);
        if request == Request::Retire {
            return requests;
        }
        assert!(requests.len() < 1_000_000);
    }
}

fn all_free(ring: &Ring) -> bool {
    (0..ring.len()).all(|fork| ring.wait_for(fork, 0).is_some())
}

struct Diner<'a> {
    philosopher: Philosopher<'a>,
    wake: u64,
    last_run: u64,
    eaten: u64,
    given_up: u64,
    resumes: u64,
    done: bool,
}

struct Evening {
    eaten: Vec<u64>,
    given_up: Vec<u64>,
    resumes: Vec<u64>,
    journal: Vec<String>,
}

/// Lets `n` philosophers live side by side on one counted clock: the one
/// whose pause ends first goes on, and among those the one that has waited
/// longest. After every move no fork may be in two hands.
fn dine(ring: &Ring, policy: Policy, meals: u64) -> Evening {
    let n = ring.len();
    let mut diners: Vec<Diner> = (0..n)
        .map(|seat| Diner {
            philosopher: Philosopher::seat(ring, seat, "Someone", policy, meals).ok().unwrap(),
            wake: 0,
            last_run: 0,
            eaten: 0,
            given_up: 0,
            resumes: 0,
            done: false,
        })
        .collect();
    let mut journal = Vec::new();
    let mut tick = 0u64;
    loop {
        let next = (0..n)
            .filter(|&seat| !diners[seat].done)
            .min_by_key(|&seat| (diners[seat].wake, diners[seat].last_run));
        let seat = match next {
            Some(seat) => seat,
            None => break,
        };
        tick += 1;
        let diner = &mut diners[seat];
        diner.last_run = tick;
        diner.resumes += 1;
        match diner.philosopher.resume() {
            Request::Say(Notice::Eating) => diner.eaten += 1,
            Request::Say(Notice::GivingUp) => diner.given_up += 1,
            Request::Say(_) => {}
            Request::Wait(ms) => diner.wake += ms,
            Request::Publish => journal.push(diner.philosopher.thought()),
            Request::Retire => diner.done = true,
        }
        for fork in 0..n {
            let right_hand_neighbour = diners[fork].philosopher.current().holds_left;
            let left_hand_neighbour = diners[(fork + n - 1) % n].philosopher.current().holds_right;
            assert!(!(right_hand_neighbour && left_hand_neighbour));
        }
    }
    Evening {
        eaten: diners.iter().map(|diner| diner.eaten).collect(),
        given_up: diners.iter().map(|diner| diner.given_up).collect(),
        resumes: diners.iter().map(|diner| diner.resumes).collect(),
        journal,
    }
}

#[test]
fn a_seat_that_the_table_lacks_is_refused() {
    let ring = Ring::build(2).ok().unwrap();
    assert!(matches!(
        Philosopher::seat(&ring, 2, "Plato", brisk(3), 1),
        Err(SetupError::NoSuchSeat)
    ));
    assert!(matches!(
        Philosopher::seat(&ring, usize::MAX, "Plato", brisk(3), 1),
        Err(SetupError::NoSuchSeat)
    ));
    assert!(Philosopher::seat(&ring, 1, "Plato", brisk(3), 1).is_ok());
}

#[test]
fn a_philosopher_is_seated_with_empty_hands() {
    let ring = Ring::build(5).ok().unwrap();
    let philosopher = Philosopher::seat(&ring, 3, "Thales", brisk(3), 100).ok().unwrap();
    let state = philosopher.current();
    assert_eq!(state.phase, Phase::Seated);
    assert_eq!(state.meals_left, 100);
    assert_eq!(state.retry_bound, 3);
    assert!(!state.holds_left && !state.holds_right);
    assert!(!philosopher.retired());
    assert!(all_free(&ring));
}

#[test]
fn alone_at_the_table_a_philosopher_eats_every_meal() {
    let ring = Ring::build(2).ok().unwrap();
    let mut philosopher = Philosopher::seat(&ring, 0, "Socrates", brisk(3), 3).ok().unwrap();
    let requests = to_the_end(&mut philosopher);
    let meal = [
        Request::Say(Notice::Thinking),
        Request::Wait(0),
        Request::Publish,
        Request::Say(Notice::TryingBoth),
        Request::Say(Notice::GotLeft),
        Request::Wait(0),
        Request::Say(Notice::GotRight),
        Request::Say(Notice::GotBoth),
        Request::Say(Notice::Eating),
        Request::Wait(0),
        Request::Say(Notice::ReturningForks),
    ];
    let mut expected = Vec::new();
    for _ in 0..3 {
        expected.extend(meal);
    }
    expected.push(Request::Retire);
    assert_eq!(requests, expected);
    assert!(philosopher.retired());
    assert!(all_free(&ring));
}

#[test]
fn a_retired_philosopher_asks_for_nothing_more() {
    let ring = Ring::build(2).ok().unwrap();
    let mut philosopher = Philosopher::seat(&ring, 0, "Socrates", brisk(3), 0).ok().unwrap();
    assert_eq!(philosopher.resume(), Request::Retire);
    assert_eq!(philosopher.resume(), Request::Retire);
    assert!(philosopher.retired());
}

#[test]
fn with_the_right_fork_taken_the_left_one_goes_back() {
    let ring = Ring::build(2).ok().unwrap();
    let taken = ring.wait_for(1, 0);
    assert!(taken.is_some());
    let mut philosopher = Philosopher::seat(&ring, 0, "Socrates", brisk(3), 1).ok().unwrap();
    let requests = to_the_end(&mut philosopher);
    let round = [
        Notice::TryingBoth,
        Notice::GotLeft,
        Notice::ReturningLeft,
    ];
    let mut expected = vec![Notice::Thinking];
    for _ in 0..3 {
        expected.extend(round);
    }
    expected.push(Notice::GivingUp);
    assert_eq!(notices(&requests), expected);
    assert!(ring.wait_for(0, 0).is_some());
    drop(taken);
    assert!(all_free(&ring));
}

#[test]
fn with_the_left_fork_taken_the_right_one_goes_back() {
    let ring = Ring::build(3).ok().unwrap();
    let taken = ring.wait_for(1, 0);
    assert!(taken.is_some());
    let mut philosopher = Philosopher::seat(&ring, 1, "Plato", brisk(2), 1).ok().unwrap();
    let requests = to_the_end(&mut philosopher);
    assert_eq!(
        notices(&requests),
        vec![
            Notice::Thinking,
            Notice::TryingBoth,
            Notice::GotRight,
            Notice::ReturningRight,
            Notice::TryingBoth,
            Notice::GotRight,
            Notice::ReturningRight,
            Notice::GivingUp,
        ]
    );
    assert!(ring.wait_for(2, 0).is_some());
    drop(taken);
    assert!(all_free(&ring));
}

#[test]
fn with_both_forks_taken_the_round_only_backs_off() {
    let ring = Ring::build(3).ok().unwrap();
    let left = ring.wait_for(2, 0);
    let right = ring.wait_for(0, 0);
    assert!(left.is_some() && right.is_some());
    let mut philosopher = Philosopher::seat(&ring, 2, "Thales", brisk(3), 1).ok().unwrap();
    let requests = to_the_end(&mut philosopher);
    assert_eq!(
        requests,
        vec![
            Request::Say(Notice::Thinking),
            Request::Wait(0),
            Request::Publish,
            Request::Say(Notice::TryingBoth),
            Request::Wait(0),
            Request::Wait(0),
            Request::Say(Notice::TryingBoth),
            Request::Wait(0),
            Request::Wait(0),
            Request::Say(Notice::TryingBoth),
            Request::Wait(0),
            Request::Wait(0),
            Request::Say(Notice::GivingUp),
            Request::Retire,
        ]
    );
}

#[test]
fn a_meal_that_was_given_up_is_followed_by_one_that_is_eaten() {
    let ring = Ring::build(2).ok().unwrap();
    let mut taken = ring.wait_for(0, 0);
    assert!(taken.is_some());
    let mut philosopher = Philosopher::seat(&ring, 1, "Plato", brisk(1), 2).ok().unwrap();
    let mut said = Vec::new();
    loop {
        match philosopher.resume() {
            Request::Say(Notice::GivingUp) => {
                said.push(Notice::GivingUp);
                taken = None;
            }
            Request::Say(notice) => said.push(notice),
            Request::Retire => break,
            _ => {}
        }
    }
    assert!(taken.is_none());
    assert_eq!(
        said,
        vec![
            Notice::Thinking,
            Notice::TryingBoth,
            Notice::GotLeft,
            Notice::ReturningLeft,
            Notice::GivingUp,
            Notice::Thinking,
            Notice::TryingBoth,
            Notice::GotLeft,
            Notice::GotRight,
            Notice::GotBoth,
            Notice::Eating,
            Notice::ReturningForks,
        ]
    );
    assert!(all_free(&ring));
}

#[test]
fn at_a_table_of_one_the_only_fork_cannot_be_held_twice() {
    let ring = Ring::build(1).ok().unwrap();
    let mut philosopher = Philosopher::seat(&ring, 0, "Diogenes", brisk(3), 2).ok().unwrap();
    let requests = to_the_end(&mut philosopher);
    let mut expected = Vec::new();
    for _ in 0..2 {
        expected.push(Notice::Thinking);
        for _ in 0..3 {
            expected.extend([Notice::TryingBoth, Notice::GotLeft, Notice::ReturningLeft]);
        }
        expected.push(Notice::GivingUp);
    }
    assert_eq!(notices(&requests), expected);
    assert!(all_free(&ring));
}

#[test]
fn the_forks_in_hand_are_the_ones_that_are_locked() {
    let ring = Ring::build(3).ok().unwrap();
    let mut philosopher = Philosopher::seat(&ring, 2, "Thales", brisk(3), 2).ok().unwrap();
    let mut seen_both = false;
    loop {
        let request = philosopher.resume();
        let state = philosopher.current();
        assert_eq!(ring.wait_for(2, 0).is_none(), state.holds_left);
        assert_eq!(ring.wait_for(0, 0).is_none(), state.holds_right);
        assert!(ring.wait_for(1, 0).is_some());
        seen_both = seen_both || (state.holds_left && state.holds_right);
        if request == Request::Say(Notice::TryingBoth) {
            assert!(!state.holds_left && !state.holds_right);
        }
        if request == Request::Retire {
            break;
        }
    }
    assert!(seen_both);
    assert!(all_free(&ring));
}

#[test]
fn a_single_fork_is_given_back_before_the_next_round_begins() {
    let ring = Ring::build(2).ok().unwrap();
    let taken = ring.wait_for(1, 0);
    let mut philosopher = Philosopher::seat(&ring, 0, "Socrates", brisk(3), 1).ok().unwrap();
    let mut partial = 0;
    loop {
        let request = philosopher.resume();
        let state = philosopher.current();
        if state.holds_left != state.holds_right {
            partial += 1;
            assert!(partial <= 3);
            assert!(ring.wait_for(0, 0).is_none());
        } else {
            partial = 0;
            assert!(ring.wait_for(0, 0).is_some());
        }
        match request {
            Request::Say(Notice::TryingBoth) | Request::Say(Notice::GivingUp) => {
                assert_eq!(partial, 0)
            }
            Request::Retire => break,
            _ => {}
        }
    }
    drop(taken);
}

#[test]
fn the_classic_pauses_last_as_long_as_they_should() {
    let ring = Ring::build(2).ok().unwrap();
    let taken = ring.wait_for(1, 0);
    let mut philosopher =
        Philosopher::seat(&ring, 0, "Socrates", Policy::standard(), 1).ok().unwrap();
    let mut waits = Vec::new();
    loop {
        match philosopher.resume() {
            Request::Wait(ms) => waits.push((philosopher.current().phase, ms)),
            Request::Retire => break,
            _ => {}
        }
    }
    drop(taken);
    assert_eq!(waits.len(), 1 + 3 * 3);
    for (phase, ms) in waits {
        match phase {
            Phase::Thinking => assert!(10 <= ms && ms < 30),
            Phase::Jitter => assert!(1 <= ms && ms < 100),
            Phase::Settling => assert_eq!(ms, 10),
            Phase::BackingOff => assert!(1 <= ms && ms < 1000),
            other => panic!("no pause is due in {:?}", other),
        }
    }
}

#[test]
fn a_taken_fork_is_waited_for_and_then_let_be() {
    let ring = Ring::build(2).ok().unwrap();
    let taken = ring.wait_for(0, 0);
    let policy = Policy { lock_wait_ms: 20, ..brisk(1) };
    let mut philosopher = Philosopher::seat(&ring, 0, "Socrates", policy, 1).ok().unwrap();
    let begun = std::time::Instant::now();
    let requests = to_the_end(&mut philosopher);
    let taken_ms = begun.elapsed().as_millis();
    assert!(taken_ms >= 20);
    assert!(taken_ms < 5_000);
    assert_eq!(
        notices(&requests),
        vec![
            Notice::Thinking,
            Notice::TryingBoth,
            Notice::GotRight,
            Notice::ReturningRight,
            Notice::GivingUp,
        ]
    );
    drop(taken);
}

#[test]
fn a_philosopher_reports_in_its_own_column() {
    let ring = Ring::build(5).ok().unwrap();
    let first = Philosopher::seat(&ring, 0, "Socrates", brisk(3), 1).ok().unwrap();
    let third = Philosopher::seat(&ring, 2, "Aristotle", brisk(3), 1).ok().unwrap();
    assert_eq!(first.console_line(Notice::Thinking), "Socrates: is thinking...");
    assert_eq!(
        third.console_line(Notice::Eating),
        format!("{}Aristotle: is eating...", " ".repeat(60))
    );
    assert_eq!(third.thought(), "Eureka! Aristotle has a new idea!");
}

#[test]
fn five_philosophers_dine_a_hundred_times_each() {
    let ring = Ring::build(5).ok().unwrap();
    let evening = dine(&ring, classic(), 100);
    assert_eq!(ring.len(), 5);
    assert_eq!(summary(ring.len()), "Number of forks: 5");
    for seat in 0..5 {
        assert_eq!(evening.eaten[seat] + evening.given_up[seat], 100);
        assert!(evening.eaten[seat] >= 1);
        assert!(evening.resumes[seat] <= 1 + 100 * (4 + 11 * 3));
    }
    assert_eq!(evening.journal.len(), 500);
    assert!(all_free(&ring));
}

#[test]
fn two_philosophers_in_lockstep_still_come_to_an_end() {
    let ring = Ring::build(2).ok().unwrap();
    let evening = dine(&ring, brisk(3), 100);
    for seat in 0..2 {
        assert_eq!(evening.eaten[seat] + evening.given_up[seat], 100);
        assert!(evening.resumes[seat] <= 1 + 100 * (4 + 11 * 3));
    }
    assert!(all_free(&ring));
}

#[test]
fn lockstep_without_back_off_starves_and_random_back_off_does_not() {
    let ring = Ring::build(2).ok().unwrap();
    let starved = dine(&ring, brisk(3), 50);
    assert_eq!(starved.eaten, vec![0, 0]);
    assert_eq!(starved.given_up, vec![50, 50]);
    let fed = dine(&ring, classic(), 50);
    assert!(fed.eaten[0] >= 1 && fed.eaten[1] >= 1);
    assert!(all_free(&ring));
}

#[test]
fn in_a_thousand_meals_each_nobody_starves() {
    let ring = Ring::build(5).ok().unwrap();
    let evening = dine(&ring, classic(), 1000);
    for seat in 0..5 {
        assert!(evening.eaten[seat] >= 1);
        assert_eq!(evening.eaten[seat] + evening.given_up[seat], 1000);
    }
    assert!(all_free(&ring));
}

#[test]
fn after_any_number_of_meals_every_fork_is_free() {
    for meals in [0u64, 1, 2, 7, 31] {
        for n in 1..=6usize {
            let ring = Ring::build(n).ok().unwrap();
            let evening = dine(&ring, classic(), meals);
            assert_eq!(evening.eaten.len(), n);
            assert!(all_free(&ring));
        }
    }
}

#[test]
fn the_journal_of_an_evening_is_printed_on_demand_only() {
    let ring = Ring::build(3).ok().unwrap();
    let mut evening = dine(&ring, classic(), 4);
    let thoughts = evening.journal.clone();
    assert_eq!(thoughts.len(), 12);
    assert!(thoughts.iter().all(|entry| entry == "Eureka! Someone has a new idea!"));
    evening.journal.push(closing_entry());
    assert_eq!(printed(&evening.journal, true), thoughts);
    assert!(printed(&evening.journal, false).is_empty());
}

#[test]
fn the_fork_that_is_waited_for_next_is_known_beforehand() {
    let ring = Ring::build(5).ok().unwrap();
    let mut philosopher = Philosopher::seat(&ring, 4, "Pythagoras", brisk(3), 2).ok().unwrap();
    let mut wanted = Vec::new();
    loop {
        let fork = philosopher.wanted_fork();
        let request = philosopher.resume();
        if let Some(fork) = fork {
            wanted.push(fork);
            assert!(ring.wait_for(fork, 0).is_none());
        }
        if request == Request::Retire {
            break;
        }
    }
    assert_eq!(wanted, vec![4, 0, 4, 0]);
    assert_eq!(philosopher.wanted_fork(), None);
}
