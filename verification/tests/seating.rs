use dining_philosophers::ring::{Ring, SetupError};
use dining_philosophers::seating::{left, left_and_right, right};

#[test]
fn right_fork_is_next_left_fork() {
    for n in 2..=64usize {
        for seat in 0..n {
            assert_eq!(right(seat, n), left((seat + 1) % n, n));
            assert_eq!(left_and_right(seat, n), (seat, (seat + 1) % n));
        }
    }
}

#[test]
fn a_table_of_n_seats_uses_n_distinct_forks() {
    for n in 2..=64usize {
        let mut as_left = vec![0u32; n];
        let mut as_right = vec![0u32; n];
        for seat in 0..n {
            let (l, r) = left_and_right(seat, n);
            assert!(l < n && r < n);
            assert_ne!(l, r);
            as_left[l] += 1;
            as_right[r] += 1;
        }
        assert!(as_left.iter().all(|&count| count == 1));
        assert!(as_right.iter().all(|&count| count == 1));
    }
}

#[test]
fn five_seats_wrap_around() {
    assert_eq!(left_and_right(0, 5), (0, 1));
    assert_eq!(left_and_right(3, 5), (3, 4));
    assert_eq!(left_and_right(4, 5), (4, 0));
}

#[test]
fn two_seats_share_both_forks() {
    assert_eq!(left_and_right(0, 2), (0, 1));
    assert_eq!(left_and_right(1, 2), (1, 0));
}

#[test]
fn a_single_seat_has_one_fork_on_both_sides() {
    assert_eq!(left_and_right(0, 1), (0, 0));
}

#[test]
fn a_table_without_seats_is_refused() {
    assert!(matches!(Ring::build(0), Err(SetupError::NoSeats)));
}

#[test]
fn a_table_has_as_many_forks_as_seats() {
    for n in 1..=20usize {
        let ring = Ring::build(n).ok().unwrap();
        assert_eq!(ring.len(), n);
    }
}

#[test]
fn the_ring_knows_the_forks_of_each_seat() {
    let ring = Ring::build(5).ok().unwrap();
    assert_eq!(ring.left_and_right(0), Some((0, 1)));
    assert_eq!(ring.left_and_right(4), Some((4, 0)));
    assert_eq!(ring.left_and_right(5), None);
    assert_eq!(ring.left_and_right(usize::MAX), None);
}

#[test]
fn every_fork_of_a_new_table_is_free() {
    let ring = Ring::build(5).ok().unwrap();
    for fork in 0..5 {
        let held = ring.wait_for(fork, 0);
        assert!(held.is_some());
    }
}

#[test]
fn a_held_fork_is_not_granted_twice() {
    let ring = Ring::build(3).ok().unwrap();
    let first = ring.wait_for(1, 0);
    assert!(first.is_some());
    assert!(ring.wait_for(1, 5).is_none());
    assert!(ring.wait_for(0, 0).is_some());
    drop(first);
    assert!(ring.wait_for(1, 0).is_some());
}

#[test]
fn a_fork_that_the_table_lacks_is_never_granted() {
    let ring = Ring::build(3).ok().unwrap();
    assert!(ring.wait_for(3, 0).is_none());
    assert!(ring.wait_for(usize::MAX, 0).is_none());
}

#[test]
fn the_fork_that_is_obtained_is_the_one_that_was_waited_for() {
    let ring = Ring::build(4).ok().unwrap();
    for fork in 0..4 {
        let held = ring.wait_for(fork, 0).unwrap();
        assert_eq!(held.number(), fork);
        for other in 0..4 {
            assert_eq!(ring.wait_for(other, 0).is_none(), other == fork);
        }
    }
}
