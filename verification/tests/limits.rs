use posix_mq::config::{parse_i64, read_i64_from_file};
use posix_mq::error::Error;

#[test]
fn parses_plain_integers() {
    assert_eq!(parse_i64(b"10"), Some(10));
    assert_eq!(parse_i64(b"0"), Some(0));
    assert_eq!(parse_i64(b"8192"), Some(8192));
}

#[test]
fn parses_with_surrounding_whitespace() {
    assert_eq!(parse_i64(b"42\n"), Some(42));
    assert_eq!(parse_i64(b"  42  "), Some(42));
    assert_eq!(parse_i64(b"\t\n 7 \r\n"), Some(7));
}

#[test]
fn parses_signs() {
    assert_eq!(parse_i64(b"-7"), Some(-7));
    assert_eq!(parse_i64(b"+7"), Some(7));
    assert_eq!(parse_i64(b"-0"), Some(0));
}

#[test]
fn parses_leading_zeros() {
    assert_eq!(parse_i64(b"007"), Some(7));
    assert_eq!(parse_i64(b"0000000000000000000000000000001"), Some(1));
}

#[test]
fn rejects_non_integers() {
    assert_eq!(parse_i64(b""), None);
    assert_eq!(parse_i64(b"   "), None);
    assert_eq!(parse_i64(b"-"), None);
    assert_eq!(parse_i64(b"+"), None);
    assert_eq!(parse_i64(b"12a"), None);
    assert_eq!(parse_i64(b"a12"), None);
    assert_eq!(parse_i64(b"1 2"), None);
    assert_eq!(parse_i64(b"--1"), None);
    assert_eq!(parse_i64(b"0x10"), None);
}

#[test]
fn respects_the_i64_range() {
    assert_eq!(parse_i64(b"9223372036854775807"), Some(i64::MAX));
    assert_eq!(parse_i64(b"9223372036854775808"), None);
    assert_eq!(parse_i64(b"-9223372036854775808"), Some(i64::MIN));
    assert_eq!(parse_i64(b"-9223372036854775809"), None);
    assert_eq!(parse_i64(b"99999999999999999999999999"), None);
}

#[test]
fn reads_system_limits() {
    // The four queue limit files exist on any Linux with mqueue support.
    let max_pending = read_i64_from_file("/proc/sys/fs/mqueue/msg_max").unwrap();
    assert!(max_pending > 0);
    let max_size = read_i64_from_file("/proc/sys/fs/mqueue/msgsize_max").unwrap();
    assert!(max_size > 0);
}

#[test]
fn missing_file_is_a_reading_error() {
    let r = read_i64_from_file("/proc/sys/fs/mqueue/no-such-limit");
    assert!(matches!(r, Err(Error::ValueReadingError(_))));
}

#[test]
fn non_integer_content_is_an_internal_error() {
    // A real file whose content is text, not an integer.
    let r = read_i64_from_file("/proc/version");
    assert_eq!(r, Err(Error::UnknownInternalError));
}
