use posix_mq::error::{Error, NameError};
use posix_mq::Name;

#[test]
fn rejects_name_without_leading_separator() {
    let r = Name::new("test-queue");
    assert_eq!(
        r.unwrap_err(),
        Error::InvalidQueueName(NameError::MustStartWithSeparator)
    );

    let r = Name::new("");
    assert_eq!(
        r.unwrap_err(),
        Error::InvalidQueueName(NameError::MustStartWithSeparator)
    );

    let r = Name::new("queue/name");
    assert_eq!(
        r.unwrap_err(),
        Error::InvalidQueueName(NameError::MustStartWithSeparator)
    );
}

#[test]
fn rejects_separator_alone() {
    let r = Name::new("/");
    assert_eq!(r.unwrap_err(), Error::InvalidQueueName(NameError::SeparatorOnly));
}

#[test]
fn rejects_name_longer_than_255() {
    let mut s = String::from("/");
    for _ in 0..255 {
        s.push('a');
    }
    assert_eq!(s.len(), 256);
    let r = Name::new(&s);
    assert_eq!(r.unwrap_err(), Error::InvalidQueueName(NameError::TooLong));
}

#[test]
fn accepts_name_of_exactly_255() {
    let mut s = String::from("/");
    for _ in 0..254 {
        s.push('a');
    }
    assert_eq!(s.len(), 255);
    let n = Name::new(&s).unwrap();
    assert_eq!(n.as_str(), s.as_str());
}

#[test]
fn rejects_second_separator() {
    let r = Name::new("/a/b");
    assert_eq!(
        r.unwrap_err(),
        Error::InvalidQueueName(NameError::TooManySeparators)
    );

    let r = Name::new("//");
    assert_eq!(
        r.unwrap_err(),
        Error::InvalidQueueName(NameError::TooManySeparators)
    );
}

#[test]
fn embedded_nul_is_an_internal_error() {
    // Passes every ordered rule, but cannot become a nul-terminated kernel
    // name: rejected at construction, not with a name reason.
    let r = Name::new("/a\u{0}b");
    assert_eq!(r.unwrap_err(), Error::UnknownInternalError);

    let r = Name::new("/queue\u{0}");
    assert_eq!(r.unwrap_err(), Error::UnknownInternalError);

    // The ordered rules are checked first.
    let r = Name::new("a\u{0}b");
    assert_eq!(
        r.unwrap_err(),
        Error::InvalidQueueName(NameError::MustStartWithSeparator)
    );
}

#[test]
fn valid_name_round_trips() {
    let n = Name::new("/test-queue").unwrap();
    assert_eq!(n.as_str(), "/test-queue");
}

#[test]
fn rule_order_first_failure_wins() {
    // Longer than 255 and without a leading separator: the separator rule is
    // checked first.
    let mut s = String::new();
    for _ in 0..300 {
        s.push('b');
    }
    let r = Name::new(&s);
    assert_eq!(
        r.unwrap_err(),
        Error::InvalidQueueName(NameError::MustStartWithSeparator)
    );

    // Longer than 255 and with two separators: the length rule is checked
    // before the separator count.
    let mut s = String::from("/");
    for _ in 0..300 {
        s.push('c');
    }
    s.push('/');
    let r = Name::new(&s);
    assert_eq!(r.unwrap_err(), Error::InvalidQueueName(NameError::TooLong));
}
