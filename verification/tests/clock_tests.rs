use zenoh_flow_python::clock::timestamp_from_clock;
use zenoh_flow_python::clock::timestamp_to_clock;
use zenoh_flow_python::error::BridgeError;
use zenoh_flow_python::timestamp::TimestampRepr;

#[test]
fn timestamp_converts_through_the_real_clock() {
    let repr = TimestampRepr::new(42, String::from("a3"));
    let ts = timestamp_to_clock(&repr).expect("a valid identifier converts");
    let back = timestamp_from_clock(&ts);
    assert_eq!(back.time(), 42);
    assert_eq!(back.id(), "a3");
}

#[test]
fn uppercase_identifier_normalizes_through_the_clock() {
    let repr = TimestampRepr::new(7, String::from("BEEF"));
    let ts = timestamp_to_clock(&repr).expect("uppercase hexadecimal is a valid identifier");
    let back = timestamp_from_clock(&ts);
    assert_eq!(back.time(), 7);
    assert_eq!(back.id(), "beef");
}

#[test]
fn invalid_clock_identifier_is_deserialization() {
    let repr = TimestampRepr::new(1, String::from("0a"));
    match timestamp_to_clock(&repr) {
        Err(BridgeError::Deserialization(_)) => {}
        _ => panic!("an identifier with a leading zero digit is rejected"),
    }
    let repr = TimestampRepr::new(1, String::from(""));
    assert!(timestamp_to_clock(&repr).is_err());
    let repr = TimestampRepr::new(1, String::from("not-hex"));
    assert!(timestamp_to_clock(&repr).is_err());
}

#[test]
fn large_identifier_round_trips() {
    let id = String::from("f0123456789abcdef0123456789abcde");
    let repr = TimestampRepr::new(u64::MAX, id.clone());
    let ts = timestamp_to_clock(&repr).expect("a full-width identifier converts");
    let back = timestamp_from_clock(&ts);
    assert_eq!(back.time(), u64::MAX);
    assert_eq!(back.id(), &id);
}
