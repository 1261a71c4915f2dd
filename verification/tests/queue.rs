use posix_mq::error::Error;
use posix_mq::{Message, Name, Queue};

// Unlink a queue a previous failed run may have left behind.
fn cleanup(name: &str) {
    if let Ok(q) = Queue::open(Name::new(name).unwrap()) {
        let _ = q.delete();
    }
}

#[test]
fn test_open_delete() {
    // Simple test with default queue settings
    let name = Name::new("/test-queue").unwrap();
    let queue = Queue::open_or_create(name).expect("Opening queue failed");

    let message = Message {
        data: "test-message".as_bytes().to_vec(),
        priority: 0,
    };

    queue.send(&message).expect("message sending failed");

    let result = queue.receive().expect("message receiving failed");

    assert_eq!(message, result);

    queue.delete();
}

#[test]
fn excessive_limits_fail_without_a_syscall() {
    // Against fixed system limits: only the checks themselves run.
    let name = Name::new("/pmq-limit-check").unwrap();
    let r = Queue::create_with_limits(name, 5, 100, 4, 8192);
    assert_eq!(r.unwrap_err(), Error::MaximumMessageCountExceeded);

    let name = Name::new("/pmq-limit-check").unwrap();
    let r = Queue::create_with_limits(name, 4, 8193, 4, 8192);
    assert_eq!(r.unwrap_err(), Error::MaximumMessageSizeExceeded);

    // The count check comes first when both are excessive.
    let name = Name::new("/pmq-limit-check").unwrap();
    let r = Queue::create_with_limits(name, 5, 8193, 4, 8192);
    assert_eq!(r.unwrap_err(), Error::MaximumMessageCountExceeded);
}

#[test]
fn excessive_limits_fail_against_the_system() {
    // Against the limits the kernel actually reports.
    let name = Name::new("/pmq-sys-limit").unwrap();
    let r = Queue::create(name, i64::MAX, 1);
    assert_eq!(r.unwrap_err(), Error::MaximumMessageCountExceeded);

    let name = Name::new("/pmq-sys-limit").unwrap();
    let r = Queue::create(name, 1, i64::MAX);
    assert_eq!(r.unwrap_err(), Error::MaximumMessageSizeExceeded);
}

#[test]
fn create_existing_and_open_missing() {
    cleanup("/pmq-create-twice");

    let first = Queue::create(Name::new("/pmq-create-twice").unwrap(), 2, 64)
        .expect("creating a fresh queue failed");

    let again = Queue::create(Name::new("/pmq-create-twice").unwrap(), 2, 64);
    assert_eq!(again.unwrap_err(), Error::QueueAlreadyExists);

    first.delete().expect("deleting the queue failed");

    let missing = Queue::open(Name::new("/pmq-does-not-exist").unwrap());
    assert_eq!(missing.unwrap_err(), Error::QueueNotFound);
}

#[test]
fn end_to_end_roundtrip() {
    cleanup("/pmq-roundtrip");

    let queue = Queue::open_or_create(Name::new("/pmq-roundtrip").unwrap())
        .expect("open-or-create failed");

    let message = Message {
        data: "test-message".as_bytes().to_vec(),
        priority: 0,
    };
    queue.send(&message).expect("send failed");

    let received = queue.receive().expect("receive failed");
    assert_eq!(received, message);
    assert_eq!(received.data, "test-message".as_bytes().to_vec());
    assert_eq!(received.priority, 0);

    queue.delete().expect("delete failed");

    let reopened = Queue::open(Name::new("/pmq-roundtrip").unwrap());
    assert_eq!(reopened.unwrap_err(), Error::QueueNotFound);
}

#[test]
fn open_caches_the_actual_attributes() {
    cleanup("/pmq-attrs");

    let created = Queue::create(Name::new("/pmq-attrs").unwrap(), 3, 48)
        .expect("creating the queue failed");
    assert_eq!(created.max_pending(), 3);
    assert_eq!(created.max_size(), 48);

    // A second handle to the same queue learns the limits from the kernel,
    // not from the caller.
    let opened = Queue::open(Name::new("/pmq-attrs").unwrap()).expect("opening the queue failed");
    assert_eq!(opened.max_pending(), 3);
    assert_eq!(opened.max_size(), 48);

    created.delete().expect("delete failed");
}

#[test]
fn oversized_message_is_rejected_locally() {
    cleanup("/pmq-small");

    let queue = Queue::create(Name::new("/pmq-small").unwrap(), 2, 8)
        .expect("creating the queue failed");
    assert_eq!(queue.max_size(), 8);

    let too_big = Message {
        data: vec![7u8; 9],
        priority: 0,
    };
    assert_eq!(queue.send(&too_big).unwrap_err(), Error::MessageSizeExceeded);

    let just_fits = Message {
        data: vec![7u8; 8],
        priority: 1,
    };
    queue.send(&just_fits).expect("send failed");
    let received = queue.receive().expect("receive failed");
    assert_eq!(received, just_fits);
    assert_eq!(received.priority, 1);

    queue.delete().expect("delete failed");
}

#[test]
fn dropping_a_handle_keeps_the_queue() {
    cleanup("/pmq-dropped");

    let queue = Queue::open_or_create(Name::new("/pmq-dropped").unwrap())
        .expect("open-or-create failed");
    // The handle's descriptor is closed here; the named queue stays.
    drop(queue);

    let again = Queue::open(Name::new("/pmq-dropped").unwrap())
        .expect("reopening after drop failed");
    again.delete().expect("delete failed");
}

#[test]
fn from_buffer_truncates_to_the_received_length() {
    let m = Message::from_buffer(vec![1, 2, 3, 4], 2, 5);
    assert_eq!(m.data, vec![1, 2]);
    assert_eq!(m.priority, 5);

    let m = Message::from_buffer(vec![9, 8, 7], 3, 0);
    assert_eq!(m.data, vec![9, 8, 7]);
    assert_eq!(m.priority, 0);

    let m = Message::from_buffer(vec![1, 2, 3], 0, 2);
    assert_eq!(m.data, Vec::<u8>::new());
    assert_eq!(m.priority, 2);
}

#[test]
fn messages_compare_by_content_and_priority() {
    let a = Message {
        data: vec![1, 2, 3],
        priority: 0,
    };
    let b = Message {
        data: vec![1, 2, 3],
        priority: 0,
    };
    let c = Message {
        data: vec![1, 2, 4],
        priority: 0,
    };
    let d = Message {
        data: vec![1, 2, 3],
        priority: 1,
    };
    assert_eq!(a, b);
    assert_ne!(a, c);
    assert_ne!(a, d);
}
