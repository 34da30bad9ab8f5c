use double_pendulum::{Trace, TRACE_CAPACITY};
use glam::{vec2, Vec2};

#[test]
fn new_trace_is_empty() {
    let t: Trace<i64> = Trace::new();
    assert!(t.is_empty());
    assert_eq!(t.len(), 0);
    assert!(t.as_slice().is_empty());
}

#[test]
fn capacity_is_two_hundred() {
    assert_eq!(TRACE_CAPACITY, 200);
}

#[test]
fn length_is_min_of_steps_and_capacity() {
    let mut t: Trace<i64> = Trace::new();
    for n in 1..=450i64 {
        t.push(n);
        let expected = if n <= 200 { n as usize } else { 200 };
        assert_eq!(t.len(), expected);
    }
}

#[test]
fn keeps_points_in_order_while_not_full() {
    let mut t: Trace<i64> = Trace::new();
    t.push(7);
    t.push(3);
    t.push(9);
    assert_eq!(t.as_slice(), &[7, 3, 9]);
}

#[test]
fn full_trace_evicts_oldest_each_push() {
    let mut t: Trace<i64> = Trace::new();
    for n in 0..200i64 {
        t.push(n);
    }
    assert_eq!(t.as_slice()[0], 0);
    assert_eq!(t.as_slice()[199], 199);
    t.push(200);
    assert_eq!(t.len(), 200);
    assert_eq!(t.as_slice()[0], 1);
    assert_eq!(t.as_slice()[199], 200);
    t.push(201);
    assert_eq!(t.as_slice()[0], 2);
    assert_eq!(t.as_slice()[198], 200);
    assert_eq!(t.as_slice()[199], 201);
}

#[test]
fn holds_the_most_recent_points_after_many_pushes() {
    let mut t: Trace<i64> = Trace::new();
    for n in 0..1000i64 {
        t.push(n);
    }
    let expected: Vec<i64> = (800..1000).collect();
    assert_eq!(t.as_slice(), expected.as_slice());
}

#[test]
fn traces_plane_positions() {
    let mut t: Trace<Vec2> = Trace::new();
    t.push(vec2(1.5, -2.0));
    t.push(vec2(0.0, 100.0));
    assert_eq!(t.as_slice(), &[vec2(1.5, -2.0), vec2(0.0, 100.0)]);
}
