use wsprobe::payload::{echo_payload, probe_payload};

#[test]
fn probe_zero() {
    assert_eq!(probe_payload(0), "Message ID: 0");
}

#[test]
fn probe_single_digits() {
    assert_eq!(probe_payload(1), "Message ID: 1");
    assert_eq!(probe_payload(4), "Message ID: 4");
    assert_eq!(probe_payload(9), "Message ID: 9");
}

#[test]
fn probe_several_digits() {
    assert_eq!(probe_payload(10), "Message ID: 10");
    assert_eq!(probe_payload(42), "Message ID: 42");
    assert_eq!(probe_payload(100), "Message ID: 100");
    assert_eq!(probe_payload(1234567890), "Message ID: 1234567890");
}

#[test]
fn probe_largest_identifier() {
    assert_eq!(probe_payload(u64::MAX), "Message ID: 18446744073709551615");
}

#[test]
fn probe_agrees_with_decimal_formatting() {
    let mut id: u64 = 0;
    while id < 2000 {
        assert_eq!(probe_payload(id), format!("Message ID: {}", id));
        id += 1;
    }
    assert_eq!(probe_payload(9_999_999_999), format!("Message ID: {}", 9_999_999_999u64));
}

#[test]
fn echo_prefixes_the_inbound_text() {
    assert_eq!(echo_payload("Message ID: 0"), "Response to Message ID: 0");
    assert_eq!(echo_payload("hello"), "Response to hello");
}

#[test]
fn echo_of_empty_text() {
    assert_eq!(echo_payload(""), "Response to ");
}

#[test]
fn echo_keeps_text_that_is_not_ascii() {
    assert_eq!(echo_payload("gr\u{fc}\u{df}e \u{1f600}"), "Response to gr\u{fc}\u{df}e \u{1f600}");
}

#[test]
fn echo_of_a_probe() {
    assert_eq!(echo_payload(probe_payload(17).as_str()), "Response to Message ID: 17");
}
