use dealve::cursor::{step, step_ring, Delta};

#[test]
fn step_moves_by_one_inside_the_list() {
    assert_eq!(step(0, 3, Delta::Forward), 1);
    assert_eq!(step(1, 3, Delta::Forward), 2);
    assert_eq!(step(2, 3, Delta::Backward), 1);
    assert_eq!(step(1, 3, Delta::Backward), 0);
}

#[test]
fn step_stays_at_the_ends() {
    assert_eq!(step(2, 3, Delta::Forward), 2);
    assert_eq!(step(0, 3, Delta::Backward), 0);
    assert_eq!(step(0, 1, Delta::Forward), 0);
    assert_eq!(step(0, 1, Delta::Backward), 0);
    assert_eq!(step(usize::MAX - 1, usize::MAX, Delta::Forward), usize::MAX - 1);
}

#[test]
fn step_in_empty_list_keeps_the_index() {
    assert_eq!(step(0, 0, Delta::Forward), 0);
    assert_eq!(step(0, 0, Delta::Backward), 0);
    assert_eq!(step(5, 0, Delta::Forward), 5);
}

#[test]
fn step_brings_an_index_from_outside_into_the_list() {
    assert_eq!(step(7, 3, Delta::Forward), 2);
    assert_eq!(step(7, 3, Delta::Backward), 2);
    assert_eq!(step(3, 3, Delta::Backward), 2);
    assert_eq!(step(usize::MAX, 3, Delta::Forward), 2);
}

#[test]
fn ring_wraps_forward_and_backward() {
    assert_eq!(step_ring(0, 3, Delta::Forward), 1);
    assert_eq!(step_ring(1, 3, Delta::Forward), 2);
    assert_eq!(step_ring(2, 3, Delta::Forward), 0);
    assert_eq!(step_ring(0, 3, Delta::Backward), 2);
    assert_eq!(step_ring(2, 3, Delta::Backward), 1);
    assert_eq!(step_ring(1, 3, Delta::Backward), 0);
}

#[test]
fn ring_of_one_and_of_none() {
    assert_eq!(step_ring(0, 1, Delta::Forward), 0);
    assert_eq!(step_ring(0, 1, Delta::Backward), 0);
    assert_eq!(step_ring(0, 0, Delta::Forward), 0);
    assert_eq!(step_ring(4, 0, Delta::Backward), 4);
}

#[test]
fn ring_reduces_an_index_from_outside() {
    assert_eq!(step_ring(7, 3, Delta::Forward), 2);
    assert_eq!(step_ring(7, 3, Delta::Backward), 0);
    assert_eq!(step_ring(6, 3, Delta::Backward), 2);
    assert_eq!(step_ring(usize::MAX, 2, Delta::Forward), 0);
}
