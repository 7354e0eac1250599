use work_queue::queue::{BoundedWorkQueue, CreateError, DequeueOutcome, EnqueueOutcome};

fn expect_accepted<T: std::fmt::Debug>(outcome: EnqueueOutcome<T>) {
    match outcome {
        EnqueueOutcome::Accepted => {}
        other => panic!("expected Accepted, got {:?}", other),
    }
}

fn expect_item<T: std::fmt::Debug>(outcome: DequeueOutcome<T>) -> T {
    match outcome {
        DequeueOutcome::Item(item) => item,
        other => panic!("expected an item, got {:?}", other),
    }
}

#[test]
fn create_with_zero_capacity_is_rejected() {
    match BoundedWorkQueue::<u64>::new(0) {
        Err(CreateError::InvalidCapacity) => {}
        Ok(_) => panic!("a zero capacity must be rejected"),
    }
}

#[test]
fn create_reports_capacity_and_empty_buffer() {
    let q = BoundedWorkQueue::<u64>::new(7).unwrap_or_else(|_| panic!("capacity 7 is valid"));
    assert_eq!(q.capacity(), 7);
    assert_eq!(q.len(), 0);
    assert!(!q.is_closed());
    assert_eq!(q.producers(), 1);
    assert_eq!(q.consumers(), 1);
}

#[test]
fn dequeue_on_empty_open_queue_reports_empty() {
    let mut q = BoundedWorkQueue::<u64>::new(3).unwrap_or_else(|_| panic!("capacity 3 is valid"));
    match q.try_dequeue() {
        DequeueOutcome::Empty => {}
        other => panic!("expected Empty, got {:?}", other),
    }
}

#[test]
fn fifo_order_with_single_consumer() {
    let mut q =
        BoundedWorkQueue::<String>::new(3).unwrap_or_else(|_| panic!("capacity 3 is valid"));
    expect_accepted(q.try_enqueue("first".to_string()));
    expect_accepted(q.try_enqueue("second".to_string()));
    expect_accepted(q.try_enqueue("third".to_string()));
    assert_eq!(expect_item(q.try_dequeue()), "first");
    assert_eq!(expect_item(q.try_dequeue()), "second");
    assert_eq!(expect_item(q.try_dequeue()), "third");
}

#[test]
fn full_queue_returns_item_and_never_exceeds_capacity() {
    let mut q = BoundedWorkQueue::<u64>::new(4).unwrap_or_else(|_| panic!("capacity 4 is valid"));
    for i in 0..4u64 {
        expect_accepted(q.try_enqueue(i));
        assert!(q.len() <= q.capacity());
    }
    assert_eq!(q.len(), 4);
    match q.try_enqueue(99) {
        EnqueueOutcome::Full(item) => assert_eq!(item, 99),
        other => panic!("expected Full, got {:?}", other),
    }
    assert_eq!(q.len(), 4);
}

#[test]
fn enqueue_after_close_returns_item_with_closed() {
    let mut q = BoundedWorkQueue::<u64>::new(2).unwrap_or_else(|_| panic!("capacity 2 is valid"));
    expect_accepted(q.try_enqueue(1));
    q.close();
    match q.try_enqueue(2) {
        EnqueueOutcome::Closed(item) => assert_eq!(item, 2),
        other => panic!("expected Closed, got {:?}", other),
    }
    assert_eq!(q.len(), 1);
}

#[test]
fn closed_queue_drains_before_end_of_stream() {
    let mut q = BoundedWorkQueue::<u64>::new(3).unwrap_or_else(|_| panic!("capacity 3 is valid"));
    expect_accepted(q.try_enqueue(10));
    expect_accepted(q.try_enqueue(20));
    q.close();
    assert_eq!(expect_item(q.try_dequeue()), 10);
    assert_eq!(expect_item(q.try_dequeue()), 20);
    for _ in 0..3 {
        match q.try_dequeue() {
            DequeueOutcome::EndOfStream => {}
            other => panic!("expected EndOfStream, got {:?}", other),
        }
    }
}

#[test]
fn close_is_idempotent() {
    let mut q = BoundedWorkQueue::<u64>::new(2).unwrap_or_else(|_| panic!("capacity 2 is valid"));
    expect_accepted(q.try_enqueue(5));
    q.close();
    q.close();
    assert!(q.is_closed());
    assert_eq!(expect_item(q.try_dequeue()), 5);
    match q.try_dequeue() {
        DequeueOutcome::EndOfStream => {}
        other => panic!("expected EndOfStream, got {:?}", other),
    }
}

#[test]
fn dropping_last_producer_closes_the_queue() {
    let mut q = BoundedWorkQueue::<u64>::new(2).unwrap_or_else(|_| panic!("capacity 2 is valid"));
    q.dup_producer();
    assert_eq!(q.producers(), 2);
    expect_accepted(q.try_enqueue(7));
    q.drop_producer();
    assert!(!q.is_closed());
    q.drop_producer();
    assert!(q.is_closed());
    assert_eq!(expect_item(q.try_dequeue()), 7);
    match q.try_dequeue() {
        DequeueOutcome::EndOfStream => {}
        other => panic!("expected EndOfStream, got {:?}", other),
    }
}

#[test]
fn enqueue_with_no_live_consumer_is_abandoned() {
    let mut q = BoundedWorkQueue::<u64>::new(2).unwrap_or_else(|_| panic!("capacity 2 is valid"));
    q.drop_consumer();
    assert_eq!(q.consumers(), 0);
    match q.try_enqueue(3) {
        EnqueueOutcome::Abandoned(item) => assert_eq!(item, 3),
        other => panic!("expected Abandoned, got {:?}", other),
    }
    assert_eq!(q.len(), 0);
}

#[test]
fn duplicated_consumer_keeps_queue_live() {
    let mut q = BoundedWorkQueue::<u64>::new(2).unwrap_or_else(|_| panic!("capacity 2 is valid"));
    q.dup_consumer();
    q.drop_consumer();
    assert_eq!(q.consumers(), 1);
    expect_accepted(q.try_enqueue(4));
    assert_eq!(expect_item(q.try_dequeue()), 4);
}

#[test]
fn scenario_capacity_two_with_backpressure() {
    let mut q =
        BoundedWorkQueue::<String>::new(2).unwrap_or_else(|_| panic!("capacity 2 is valid"));
    expect_accepted(q.try_enqueue("A".to_string()));
    expect_accepted(q.try_enqueue("B".to_string()));
    let held = match q.try_enqueue("C".to_string()) {
        EnqueueOutcome::Full(item) => item,
        other => panic!("expected Full, got {:?}", other),
    };
    assert_eq!(expect_item(q.try_dequeue()), "A");
    expect_accepted(q.try_enqueue(held));
    assert_eq!(expect_item(q.try_dequeue()), "B");
    assert_eq!(expect_item(q.try_dequeue()), "C");
    q.close();
    match q.try_dequeue() {
        DequeueOutcome::EndOfStream => {}
        other => panic!("expected EndOfStream, got {:?}", other),
    }
}

#[test]
fn scenario_competing_consumers_split_the_stream() {
    let mut q = BoundedWorkQueue::<u64>::new(5).unwrap_or_else(|_| panic!("capacity 5 is valid"));
    q.dup_consumer();
    let mut first: Vec<u64> = Vec::new();
    let mut second: Vec<u64> = Vec::new();
    let mut first_turn = true;
    let mut take_one = |q: &mut BoundedWorkQueue<u64>| {
        let item = expect_item(q.try_dequeue());
        if first_turn {
            first.push(item);
        } else {
            second.push(item);
        }
        first_turn = !first_turn;
    };
    let mut next: u64 = 1;
    while next <= 10 {
        match q.try_enqueue(next) {
            EnqueueOutcome::Accepted => next += 1,
            EnqueueOutcome::Full(_) => take_one(&mut q),
            other => panic!("expected Accepted or Full, got {:?}", other),
        }
    }
    q.close();
    loop {
        match q.try_dequeue() {
            DequeueOutcome::Item(item) => {
                if first_turn {
                    first.push(item);
                } else {
                    second.push(item);
                }
                first_turn = !first_turn;
            }
            DequeueOutcome::EndOfStream => break,
            DequeueOutcome::Empty => panic!("a closed queue never reports Empty"),
        }
    }
    let mut all: Vec<u64> = first.iter().chain(second.iter()).copied().collect();
    all.sort();
    let expected: Vec<u64> = (1..=10).collect();
    assert_eq!(all, expected);
    for received in [&first, &second] {
        for pair in received.windows(2) {
            assert!(pair[0] < pair[1]);
        }
    }
}
