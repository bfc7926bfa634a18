use zenoh_flow_python::config::decode;
use zenoh_flow_python::config::encode;
use zenoh_flow_python::config::node_configuration;
use zenoh_flow_python::config::Configuration;
use zenoh_flow_python::error::BridgeError;
use zenoh_flow_python::foreign::ForeignValue;

fn cfg_eq(a: &Configuration, b: &Configuration) -> bool {
    match (a, b) {
        (Configuration::Null, Configuration::Null) => true,
        (Configuration::Bool(x), Configuration::Bool(y)) => x == y,
        (Configuration::Int(x), Configuration::Int(y)) => x == y,
        (Configuration::UInt(x), Configuration::UInt(y)) => x == y,
        (Configuration::Float(x), Configuration::Float(y)) => x == y,
        (Configuration::Text(x), Configuration::Text(y)) => x == y,
        (Configuration::List(xs), Configuration::List(ys)) => {
            xs.len() == ys.len() && xs.iter().zip(ys.iter()).all(|(x, y)| cfg_eq(x, y))
        }
        (Configuration::Object(xs), Configuration::Object(ys)) => {
            xs.len() == ys.len()
                && xs
                    .iter()
                    .zip(ys.iter())
                    .all(|(x, y)| x.0 == y.0 && cfg_eq(&x.1, &y.1))
        }
        _ => false,
    }
}

fn sample_tree() -> Configuration {
    Configuration::Object(vec![
        (String::from("flag"), Configuration::Bool(true)),
        (String::from("count"), Configuration::Int(-7)),
        (String::from("name"), Configuration::Text(String::from("alpha"))),
        (
            String::from("items"),
            Configuration::List(vec![
                Configuration::Null,
                Configuration::Int(3),
                Configuration::Text(String::from("x")),
            ]),
        ),
    ])
}

#[test]
fn round_trip_structured_tree() {
    let tree = sample_tree();
    let decoded = decode(&encode(&tree)).expect("round trip must succeed");
    assert!(cfg_eq(&tree, &decoded));
}

#[test]
fn round_trip_max_u64_keeps_precision() {
    let tree = Configuration::UInt(u64::MAX);
    let encoded = encode(&tree);
    match &encoded {
        ForeignValue::Int { negative, magnitude } => {
            assert!(!negative);
            assert_eq!(*magnitude, 18446744073709551615u64);
        }
        _ => panic!("expected an integral foreign value"),
    }
    let decoded = decode(&encoded).expect("round trip must succeed");
    match decoded {
        Configuration::UInt(u) => assert_eq!(u, 18446744073709551615u64),
        _ => panic!("a value beyond the signed range stays unsigned"),
    }
}

#[test]
fn round_trip_minus_one_stays_signed() {
    let decoded = decode(&encode(&Configuration::Int(-1))).expect("round trip must succeed");
    match decoded {
        Configuration::Int(i) => assert_eq!(i, -1),
        _ => panic!("a negative value stays signed"),
    }
}

#[test]
fn small_unsigned_normalizes_to_signed() {
    let decoded = decode(&encode(&Configuration::UInt(5))).expect("round trip must succeed");
    match decoded {
        Configuration::Int(i) => assert_eq!(i, 5),
        _ => panic!("an unsigned value inside the signed range normalizes to signed"),
    }
}

#[test]
fn float_bits_cross_unchanged() {
    let bits = 3.5f64.to_bits();
    let decoded = decode(&encode(&Configuration::Float(bits))).expect("round trip must succeed");
    match decoded {
        Configuration::Float(b) => assert_eq!(f64::from_bits(b), 3.5f64),
        _ => panic!("a float keeps its bit pattern"),
    }
}

#[test]
fn oversized_negative_is_type_conversion() {
    let v = ForeignValue::Int { negative: true, magnitude: u64::MAX };
    match decode(&v) {
        Err(BridgeError::TypeConversion(_)) => {}
        _ => panic!("a negative value beyond the signed range fits no number kind"),
    }
}

#[test]
fn bytes_value_is_type_conversion() {
    let v = ForeignValue::Bytes(vec![1, 2, 3]);
    match decode(&v) {
        Err(BridgeError::TypeConversion(_)) => {}
        _ => panic!("bytes have no configuration representation"),
    }
}

#[test]
fn nested_failure_propagates() {
    let v = ForeignValue::List(vec![
        ForeignValue::Nil,
        ForeignValue::Int { negative: true, magnitude: u64::MAX },
    ]);
    match decode(&v) {
        Err(BridgeError::TypeConversion(_)) => {}
        _ => panic!("a failing element fails the whole array"),
    }
}

#[test]
fn node_configuration_strips_reserved_keys() {
    let config = Configuration::Object(vec![
        (
            String::from("python-script"),
            Configuration::Text(String::from("/path/s.py")),
        ),
        (
            String::from("configuration"),
            Configuration::Object(vec![(String::from("value"), Configuration::Int(3))]),
        ),
    ]);
    let (path, user) = node_configuration(config).expect("a well-formed configuration splits");
    assert_eq!(path, "/path/s.py");
    match &user {
        Configuration::Object(entries) => {
            assert_eq!(entries.len(), 1);
            assert_eq!(entries[0].0, "value");
            match &entries[0].1 {
                Configuration::Int(i) => assert_eq!(*i, 3),
                _ => panic!("the user value survives unchanged"),
            }
            assert!(entries.iter().all(|e| e.0 != "python-script"));
        }
        _ => panic!("the user gets exactly the nested configuration object"),
    }
}

#[test]
fn node_configuration_defaults_to_null() {
    let config = Configuration::Object(vec![(
        String::from("python-script"),
        Configuration::Text(String::from("/s.py")),
    )]);
    let (path, user) = node_configuration(config).expect("the nested entry is optional");
    assert_eq!(path, "/s.py");
    assert!(matches!(user, Configuration::Null));
}

#[test]
fn node_configuration_without_script_is_invalid_state() {
    let config = Configuration::Object(vec![(
        String::from("configuration"),
        Configuration::Null,
    )]);
    match node_configuration(config) {
        Err(BridgeError::InvalidState(_)) => {}
        _ => panic!("a configuration naming no script is rejected"),
    }
}

#[test]
fn node_configuration_with_non_text_script_is_invalid_state() {
    let config = Configuration::Object(vec![(
        String::from("python-script"),
        Configuration::Int(3),
    )]);
    match node_configuration(config) {
        Err(BridgeError::InvalidState(_)) => {}
        _ => panic!("a non-text script entry is rejected"),
    }
}

#[test]
fn node_configuration_of_non_object_is_invalid_state() {
    match node_configuration(Configuration::Null) {
        Err(BridgeError::InvalidState(_)) => {}
        _ => panic!("only an object can configure a node"),
    }
}
