use magnetic::buffer::{DynamicBuffer, StaticBuffer};
use magnetic::mpmc::mpmc_queue;

#[test]
fn mpmc_rejects_single_slot() {
    // the sequence-counter protocol needs at least two slots
    assert!(mpmc_queue(DynamicBuffer::<i32>::new(1).unwrap()).is_err());
    assert!(mpmc_queue(StaticBuffer::<i32, 1>::new().unwrap()).is_err());
}

#[test]
fn mpmc_round_trip() {
    let mut q = mpmc_queue(DynamicBuffer::new(2).unwrap()).unwrap();
    assert_eq!(q.try_push(42), Ok(()));
    assert_eq!(q.try_pop(), Ok(42));
    assert!(q.try_pop().is_err());
}

#[test]
fn mpmc_small_scenario() {
    let mut q = mpmc_queue(StaticBuffer::<i32, 2>::new().unwrap()).unwrap();
    assert_eq!(q.try_push(5), Ok(()));
    assert_eq!(q.try_push(6), Ok(()));
    // the queue is full: the rejected value comes back to the caller
    assert_eq!(q.try_push(7), Err(7));
    assert_eq!(q.try_pop(), Ok(5));
    assert_eq!(q.try_pop(), Ok(6));
    // the queue is empty again
    assert!(q.try_pop().is_err());
    assert_eq!(q.try_push(7), Ok(()));
    assert_eq!(q.try_pop(), Ok(7));
}

#[test]
fn mpmc_fifo_order() {
    let mut q = mpmc_queue(DynamicBuffer::new(4).unwrap()).unwrap();
    let mut popped = Vec::new();
    // more values than the capacity, so every slot cycles several times
    for round in 0..5 {
        for v in 0..4 {
            q.push(round * 10 + v);
        }
        for _ in 0..4 {
            popped.push(q.pop());
        }
    }
    let pushed: Vec<i32> = (0..5).flat_map(|round| (0..4).map(move |v| round * 10 + v)).collect();
    assert_eq!(popped, pushed);
}

#[test]
fn mpmc_capacity_bound() {
    let mut q = mpmc_queue(DynamicBuffer::new(2).unwrap()).unwrap();
    assert_eq!(q.try_push(1), Ok(()));
    assert_eq!(q.try_push(2), Ok(()));
    // exactly capacity values are outstanding: the push must fail
    assert_eq!(q.try_push(3), Err(3));
    assert_eq!(q.try_pop(), Ok(1));
    // one slot was freed: the push must succeed immediately
    assert_eq!(q.try_push(3), Ok(()));
    assert_eq!(q.try_pop(), Ok(2));
    assert_eq!(q.try_pop(), Ok(3));
    assert!(q.try_pop().is_err());
}

#[test]
fn mpmc_no_loss_no_duplication() {
    // three producers' worth of distinct values, enqueued round-robin;
    // every value must be popped exactly once
    let producers = 3;
    let per_producer = 4;
    let mut q = mpmc_queue(DynamicBuffer::new(4).unwrap()).unwrap();
    let mut popped: Vec<i32> = Vec::new();
    for j in 0..per_producer {
        for p in 0..producers {
            q.push(p * 100 + j);
        }
        for _ in 0..producers {
            popped.push(q.pop());
        }
    }
    let mut expected: Vec<i32> = (0..producers)
        .flat_map(|p| (0..per_producer).map(move |j| p * 100 + j))
        .collect();
    expected.sort();
    popped.sort();
    assert_eq!(popped, expected);
}
