use magnetic::buffer::{DynamicBuffer, StaticBuffer};
use magnetic::spsc::spsc_queue;
use magnetic::Empty;

#[test]
fn spsc_round_trip() {
    let mut q = spsc_queue(DynamicBuffer::new(1).unwrap());
    assert_eq!(q.try_push(42), Ok(()));
    assert_eq!(q.try_pop(), Ok(42));
}

#[test]
fn spsc_capacity_one_scenario() {
    let mut q = spsc_queue(StaticBuffer::<i32, 1>::new().unwrap());
    assert_eq!(q.try_push(5), Ok(()));
    // the queue is full: the rejected value comes back to the caller
    assert_eq!(q.try_push(6), Err(6));
    assert_eq!(q.try_pop(), Ok(5));
    // the queue is empty again
    assert_eq!(q.try_pop(), Err(Empty));
    assert_eq!(q.try_push(7), Ok(()));
    assert_eq!(q.try_pop(), Ok(7));
}

#[test]
fn spsc_fifo_order() {
    let mut q = spsc_queue(DynamicBuffer::new(4).unwrap());
    let mut popped = Vec::new();
    // more values than the capacity, so the cursors wrap several times
    for round in 0..5 {
        for v in 0..4 {
            q.push(round * 10 + v);
        }
        for _ in 0..4 {
            popped.push(q.pop());
        }
    }
    let pushed: Vec<i32> = (0..5).flat_map(|round| (0..4).map(move |v| round * 10 + v)).collect();
    assert_eq!(popped, pushed);
}

#[test]
fn spsc_capacity_bound() {
    let mut q = spsc_queue(DynamicBuffer::new(3).unwrap());
    assert_eq!(q.try_push(1), Ok(()));
    assert_eq!(q.try_push(2), Ok(()));
    assert_eq!(q.try_push(3), Ok(()));
    // exactly capacity values are outstanding: the push must fail
    assert_eq!(q.try_push(4), Err(4));
    assert_eq!(q.try_pop(), Ok(1));
    // one slot was freed: the push must succeed immediately
    assert_eq!(q.try_push(4), Ok(()));
    assert_eq!(q.try_push(5), Err(5));
    assert_eq!(q.try_pop(), Ok(2));
    assert_eq!(q.try_pop(), Ok(3));
    assert_eq!(q.try_pop(), Ok(4));
    assert!(q.try_pop().is_err());
}

#[test]
fn spsc_push_returns_value_unchanged() {
    let mut q = spsc_queue(StaticBuffer::<String, 1>::new().unwrap());
    assert_eq!(q.try_push(String::from("kept")), Ok(()));
    let rejected = q.try_push(String::from("bounced"));
    assert_eq!(rejected, Err(String::from("bounced")));
    assert_eq!(q.try_pop(), Ok(String::from("kept")));
}
