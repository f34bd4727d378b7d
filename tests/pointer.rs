use lookup_trigger::pointer::{capture_event, parse_pointer};
use lookup_trigger::sequence::Event;

#[test]
fn plain_pair() {
    assert_eq!(parse_pointer("10,20"), Some((10, 20)));
}

#[test]
fn pair_with_newline_and_spaces() {
    assert_eq!(parse_pointer("812, 433\n"), Some((812, 433)));
    assert_eq!(parse_pointer("  -5 ,7 "), Some((-5, 7)));
}

#[test]
fn wrong_shapes_are_refused() {
    assert_eq!(parse_pointer(""), None);
    assert_eq!(parse_pointer("10"), None);
    assert_eq!(parse_pointer("10,"), None);
    assert_eq!(parse_pointer(",20"), None);
    assert_eq!(parse_pointer("1,2,3"), None);
    assert_eq!(parse_pointer("a,b"), None);
    assert_eq!(parse_pointer("1 2,3"), None);
    assert_eq!(parse_pointer("-,3"), None);
    assert_eq!(parse_pointer("+1,3"), None);
}

#[test]
fn largest_magnitudes() {
    assert_eq!(parse_pointer("9223372036854775807,-9223372036854775807"), Some((i64::MAX, -i64::MAX)));
    assert_eq!(parse_pointer("9223372036854775808,0"), None);
    assert_eq!(parse_pointer("0,-9223372036854775808"), None);
    assert_eq!(parse_pointer("00000000000000000000000000042,7"), Some((42, 7)));
}

#[test]
fn capture_events() {
    assert_eq!(capture_event("3,4\n"), Event::Pointer(3, 4));
    assert_eq!(capture_event("error: no display"), Event::CaptureFailed);
}
