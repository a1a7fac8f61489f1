use audiobud::delivery_queue::{DeliveryQueue, EnqueueResult};


#[test]
fn second_delivery_waits_until_first_finishes() {
    let mut queue = DeliveryQueue::with_capacity(3);

    assert_eq!(
        queue.enqueue("first".to_owned()),
        EnqueueResult::Start("first".to_owned())
    );
    assert_eq!(queue.enqueue("second".to_owned()), EnqueueResult::Queued);

    assert_eq!(queue.finish_and_take_next(), Some("second".to_owned()));
    assert_eq!(queue.finish_and_take_next(), None);
}

#[test]
fn capacity_counts_the_active_delivery_and_returns_overflow_text() {
    let mut queue = DeliveryQueue::with_capacity(2);

    assert!(matches!(
        queue.enqueue("first".to_owned()),
        EnqueueResult::Start(_)
    ));
    assert_eq!(queue.enqueue("second".to_owned()), EnqueueResult::Queued);
    assert_eq!(
        queue.enqueue("recover me".to_owned()),
        EnqueueResult::Full("recover me".to_owned())
    );

    assert_eq!(queue.finish_and_take_next(), Some("second".to_owned()));
    assert_eq!(queue.finish_and_take_next(), None);
}

#[test]
fn drained_queue_starts_a_new_delivery_worker() {
    let mut queue = DeliveryQueue::with_capacity(2);

    assert!(matches!(
        queue.enqueue("first".to_owned()),
        EnqueueResult::Start(_)
    ));
    assert_eq!(queue.finish_and_take_next(), None);
    assert_eq!(
        queue.enqueue("later".to_owned()),
        EnqueueResult::Start("later".to_owned())
    );
}

#[test]
fn idle_state_tracks_delivery_lifecycle() {
    let mut queue = DeliveryQueue::with_capacity(2);

    assert!(queue.is_idle());
    assert!(matches!(
        queue.enqueue("first".to_owned()),
        EnqueueResult::Start(_)
    ));
    assert!(!queue.is_idle());
    assert_eq!(queue.finish_and_take_next(), None);
    assert!(queue.is_idle());
}
