use hostname_pipeline::shared_buffer::Buffer;
use hostname_pipeline::shared_buffer::BufferFullError;
use hostname_pipeline::shared_buffer::PopAttempt;
use hostname_pipeline::shared_buffer::PushAttempt;
use hostname_pipeline::shared_buffer::SharedBuffer;
use hostname_pipeline::ARRAY_SIZE;

#[test]
fn new_buffer_is_empty() {
    let mut b: Buffer<String> = Buffer::new();
    assert!(b.is_empty());
    assert!(!b.is_full());
    assert_eq!(b.running_producers(), 0);
    assert_eq!(b.pop(), None);
}

#[test]
fn push_then_pop_is_lifo() {
    let mut b: Buffer<String> = Buffer::new();
    assert_eq!(b.push("a".to_string()), Ok(()));
    assert_eq!(b.push("b".to_string()), Ok(()));
    assert_eq!(b.push("c".to_string()), Ok(()));
    assert_eq!(b.pop(), Some("c".to_string()));
    assert_eq!(b.pop(), Some("b".to_string()));
    assert_eq!(b.pop(), Some("a".to_string()));
    assert_eq!(b.pop(), None);
}

#[test]
fn push_is_refused_at_capacity() {
    let mut b: Buffer<u64> = Buffer::new();
    for i in 0..ARRAY_SIZE as u64 {
        assert_eq!(b.push(i), Ok(()));
    }
    assert!(b.is_full());
    assert_eq!(b.push(99), Err(BufferFullError));
    assert_eq!(b.pop(), Some(ARRAY_SIZE as u64 - 1));
    assert!(!b.is_full());
    assert_eq!(b.push(99), Ok(()));
}

#[test]
fn producer_blocked_on_full_buffer_unblocks_after_one_pop() {
    let mut b: Buffer<u64> = Buffer::new();
    for i in 0..ARRAY_SIZE as u64 {
        assert_eq!(b.try_push(i), PushAttempt::Pushed);
    }
    // The buffer is full: the producer's attempt hands the item back and the
    // producer waits.
    assert_eq!(b.try_push(42), PushAttempt::MustWait(42));
    // As soon as any consumer pops one item, the push goes through.
    assert!(matches!(b.try_pop(), PopAttempt::Item(_)));
    assert_eq!(b.try_push(42), PushAttempt::Pushed);
}

#[test]
fn consumer_terminates_once_producers_are_done_and_buffer_empty() {
    let mut b: Buffer<String> = Buffer::new();
    // No producer ever registered: an empty buffer means termination.
    assert_eq!(b.try_pop(), PopAttempt::Finished);

    b.register_producer();
    // A producer is live: an empty buffer means wait.
    assert_eq!(b.try_pop(), PopAttempt::MustWait);

    b.try_push("h".to_string());
    assert_eq!(b.try_pop(), PopAttempt::Item("h".to_string()));

    let remaining = b.deregister_producer();
    assert_eq!(remaining, 0);
    // All producers deregistered and the buffer drained: every consumer
    // that re-checks now terminates.
    assert_eq!(b.try_pop(), PopAttempt::Finished);
    assert_eq!(b.try_pop(), PopAttempt::Finished);
}

#[test]
fn register_and_deregister_track_live_producers() {
    let mut b: Buffer<u64> = Buffer::new();
    b.register_producer();
    b.register_producer();
    b.register_producer();
    assert_eq!(b.running_producers(), 3);
    assert_eq!(b.deregister_producer(), 2);
    assert_eq!(b.deregister_producer(), 1);
    b.register_producer();
    assert_eq!(b.running_producers(), 2);
    assert_eq!(b.deregister_producer(), 1);
    assert_eq!(b.deregister_producer(), 0);
}

#[test]
fn shared_buffer_hands_out_what_was_locked_in() {
    let shared: SharedBuffer<String> = SharedBuffer::new();
    {
        let mut guard = shared.buffer.lock().unwrap();
        assert!(guard.is_empty());
        guard.register_producer();
        assert_eq!(guard.try_push("host".to_string()), PushAttempt::Pushed);
        shared.can_consume.notify_one();
    }
    {
        let mut guard = shared.buffer.lock().unwrap();
        assert_eq!(guard.try_pop(), PopAttempt::Item("host".to_string()));
        shared.can_produce.notify_one();
        assert_eq!(guard.deregister_producer(), 0);
        shared.can_consume.notify_all();
        assert_eq!(guard.try_pop(), PopAttempt::Finished);
    }
}
