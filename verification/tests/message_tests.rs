use zenoh_flow_python::error::BridgeError;
use zenoh_flow_python::foreign::ForeignValue;
use zenoh_flow_python::message::DataMessage;
use zenoh_flow_python::message::E2EDeadlineMiss;
use zenoh_flow_python::message::FromDescriptor;
use zenoh_flow_python::message::LinkMessage;
use zenoh_flow_python::message::LocalDeadlineMiss;
use zenoh_flow_python::message::Payload;
use zenoh_flow_python::message::ToDescriptor;
use zenoh_flow_python::message::TransportMessage;
use zenoh_flow_python::message::message_from_foreign;
use zenoh_flow_python::message::message_of_transport;
use zenoh_flow_python::message::message_to_foreign;
use zenoh_flow_python::timestamp::TimestampRepr;
use zenoh_flow_python::timestamp::check_id_text;
use zenoh_flow_python::timestamp::decimal_text;

fn sample_miss() -> E2EDeadlineMiss {
    E2EDeadlineMiss::new(
        FromDescriptor { node: String::from("producer"), output: String::from("out0") },
        ToDescriptor { node: String::from("consumer"), input: String::from("in0") },
        100,
        250,
    )
}

fn sample_message() -> DataMessage {
    DataMessage::new(
        vec![1, 2, 3, 4],
        TimestampRepr::new(42, String::from("a3")),
        false,
        vec![sample_miss()],
    )
}

#[test]
fn message_round_trips_exactly() {
    let msg = sample_message();
    let back = message_from_foreign(&message_to_foreign(&msg)).expect("round trip must succeed");
    assert_eq!(back.get_data(), &vec![1u8, 2, 3, 4]);
    assert_eq!(back.get_ts().time(), 42);
    assert_eq!(back.get_ts().id(), "a3");
    assert!(!back.is_watermark());
    let misses = back.missed_end_to_end_deadlines();
    assert_eq!(misses.len(), 1);
    assert_eq!(misses[0].from().node(), "producer");
    assert_eq!(misses[0].from().output(), "out0");
    assert_eq!(misses[0].to().node(), "consumer");
    assert_eq!(misses[0].to().input(), "in0");
    assert_eq!(misses[0].start(), 100);
    assert_eq!(misses[0].end(), 250);
}

#[test]
fn watermark_round_trips() {
    let msg = DataMessage::new(
        vec![0],
        TimestampRepr::new(7, String::from("ff")),
        true,
        vec![],
    );
    let back = message_from_foreign(&message_to_foreign(&msg)).expect("round trip must succeed");
    assert!(back.is_watermark());
    assert_eq!(back.missed_end_to_end_deadlines().len(), 0);
}

#[test]
fn invalid_identifier_is_deserialization() {
    let msg = DataMessage::new(
        vec![1],
        TimestampRepr::new(1, String::from("0bad")),
        false,
        vec![],
    );
    match message_from_foreign(&message_to_foreign(&msg)) {
        Err(BridgeError::Deserialization(_)) => {}
        _ => panic!("an identifier starting with a zero digit is malformed"),
    }
}

#[test]
fn missing_field_is_type_conversion() {
    let v = ForeignValue::Dict(vec![(String::from("data"), ForeignValue::Bytes(vec![1]))]);
    match message_from_foreign(&v) {
        Err(BridgeError::TypeConversion(_)) => {}
        _ => panic!("a message dictionary without its fields is malformed"),
    }
}

#[test]
fn non_dictionary_is_type_conversion() {
    match message_from_foreign(&ForeignValue::Nil) {
        Err(BridgeError::TypeConversion(_)) => {}
        _ => panic!("only a dictionary can carry a message"),
    }
}

#[test]
fn timestamp_renders_counter_and_identifier() {
    let ts = TimestampRepr::new(1234, String::from("a3"));
    assert_eq!(ts.to_text(), "1234/a3");
    let msg = DataMessage::new(vec![], ts, false, vec![]);
    assert_eq!(msg.timestamp(), "1234/a3");
}

#[test]
fn decimal_rendering_is_exact() {
    assert_eq!(decimal_text(0), "0");
    assert_eq!(decimal_text(10), "10");
    assert_eq!(decimal_text(907), "907");
    assert_eq!(decimal_text(u64::MAX), "18446744073709551615");
}

#[test]
fn identifier_grammar_is_decided() {
    assert!(check_id_text("a3"));
    assert!(check_id_text("ABC"));
    assert!(check_id_text("+1"));
    assert!(check_id_text("f0000000000000000000000000000001"));
    assert!(!check_id_text(""));
    assert!(!check_id_text("0a"));
    assert!(!check_id_text("+0"));
    assert!(!check_id_text("+"));
    assert!(!check_id_text("xyz"));
    assert!(!check_id_text("a 3"));
    // One hexadecimal digit too many: the value no longer fits 128 bits.
    assert!(!check_id_text("f00000000000000000000000000000001"));
}

#[test]
fn local_deadline_miss_defaults_to_zero() {
    let m = LocalDeadlineMiss::from_option(None);
    assert_eq!(m.deadline(), 0);
    assert_eq!(m.elapsed(), 0);
    let m = LocalDeadlineMiss::from_option(Some((5, 9)));
    assert_eq!(m.deadline(), 5);
    assert_eq!(m.elapsed(), 9);
}

#[test]
fn typed_payload_serialises_at_most_once() {
    let mut lm = LinkMessage {
        payload: Payload::Typed { cache: None },
        ts: TimestampRepr::new(1, String::from("a3")),
    };
    assert!(lm.payload_bytes().is_none());
    lm.materialize(vec![1, 2]);
    assert_eq!(lm.payload_bytes().unwrap(), &vec![1u8, 2]);
    lm.materialize(vec![9, 9, 9]);
    assert_eq!(lm.payload_bytes().unwrap(), &vec![1u8, 2]);
    assert_eq!(lm.timestamp().time(), 1);
}

#[test]
fn bytes_payload_passes_through() {
    let mut lm = LinkMessage {
        payload: Payload::Bytes(vec![7, 8]),
        ts: TimestampRepr::new(2, String::from("a3")),
    };
    lm.materialize(vec![0]);
    assert_eq!(lm.payload_bytes().unwrap(), &vec![7u8, 8]);
}

#[test]
fn transport_data_converts_to_a_message() {
    let lm = LinkMessage {
        payload: Payload::Bytes(vec![4, 5]),
        ts: TimestampRepr::new(8, String::from("c1")),
    };
    let d = message_of_transport(TransportMessage::Data(lm)).expect("bytes cross");
    assert_eq!(d.get_data(), &vec![4u8, 5]);
    assert_eq!(d.get_ts().time(), 8);
    assert!(!d.is_watermark());
    assert_eq!(d.missed_end_to_end_deadlines().len(), 0);
}

#[test]
fn transport_watermark_converts_flagged() {
    let d = message_of_transport(TransportMessage::Watermark(TimestampRepr::new(
        9,
        String::from("c2"),
    )))
    .expect("a watermark crosses");
    assert!(d.is_watermark());
    assert_eq!(d.get_data(), &vec![0u8]);
    assert_eq!(d.get_ts().time(), 9);
}

#[test]
fn transport_control_is_unimplemented() {
    match message_of_transport(TransportMessage::Control) {
        Err(BridgeError::Unimplemented(_)) => {}
        _ => panic!("the control conversion is reserved and fails loudly"),
    }
}

#[test]
fn transport_unserialised_payload_is_invalid_data() {
    let lm = LinkMessage {
        payload: Payload::Typed { cache: None },
        ts: TimestampRepr::new(8, String::from("c1")),
    };
    match message_of_transport(TransportMessage::Data(lm)) {
        Err(BridgeError::InvalidData(_)) => {}
        _ => panic!("a payload must be materialized before it crosses"),
    }
}
