use zenoh_flow_python::error::BridgeError;
use zenoh_flow_python::foreign::ForeignValue;
use zenoh_flow_python::message::DataMessage;
use zenoh_flow_python::ports::outputs_from_foreign;
use zenoh_flow_python::ports::outputs_to_foreign;
use zenoh_flow_python::ports::Input;
use zenoh_flow_python::ports::InputHandles;
use zenoh_flow_python::ports::Inputs;
use zenoh_flow_python::ports::Output;
use zenoh_flow_python::ports::OutputHandles;
use zenoh_flow_python::ports::Outputs;
use zenoh_flow_python::timestamp::TimestampRepr;

#[test]
fn outputs_put_replaces_and_get_reads() {
    let mut o = Outputs::new();
    o.put(String::from("out0"), vec![1]);
    o.put(String::from("out1"), vec![2]);
    o.put(String::from("out0"), vec![3, 3]);
    assert_eq!(o.get(&String::from("out0")).unwrap(), &vec![3u8, 3]);
    assert_eq!(o.get(&String::from("out1")).unwrap(), &vec![2u8]);
    assert!(o.get(&String::from("out2")).is_none());
    assert_eq!(o.len(), 2);
}

#[test]
fn outputs_round_trip_through_the_foreign_dictionary() {
    let mut o = Outputs::new();
    o.put(String::from("a"), vec![1, 2]);
    o.put(String::from("b"), vec![]);
    let back = outputs_from_foreign(&outputs_to_foreign(&o)).expect("round trip");
    assert_eq!(back.get(&String::from("a")).unwrap(), &vec![1u8, 2]);
    assert_eq!(back.get(&String::from("b")).unwrap(), &vec![] as &Vec<u8>);
}

#[test]
fn non_bytes_output_value_is_invalid_data() {
    let v = ForeignValue::Dict(vec![(
        String::from("a"),
        ForeignValue::Text(String::from("not bytes")),
    )]);
    match outputs_from_foreign(&v) {
        Err(BridgeError::InvalidData(_)) => {}
        _ => panic!("an output value that is not bytes is rejected"),
    }
    match outputs_from_foreign(&ForeignValue::Nil) {
        Err(BridgeError::InvalidData(_)) => {}
        _ => panic!("only a dictionary can carry outputs"),
    }
}

#[test]
fn inputs_lookup_by_port() {
    let msg = DataMessage::new(
        vec![9],
        TimestampRepr::new(3, String::from("a1")),
        false,
        vec![],
    );
    let inputs = Inputs::from_pairs(vec![(String::from("in0"), msg)]);
    assert_eq!(inputs.get(&String::from("in0")).unwrap().get_data(), &vec![9u8]);
    assert!(inputs.get(&String::from("in1")).is_none());
    assert_eq!(inputs.len(), 1);
}

#[test]
fn shared_handle_refuses_exclusive_conversion() {
    let mut h = Input::new(String::from("in0"));
    assert_eq!(h.port_id(), "in0");
    h.share();
    match h.try_into_exclusive() {
        Err((h, BridgeError::InvalidState(_))) => {
            assert_eq!(h.shares, 2);
        }
        _ => panic!("a still-shared handle cannot become exclusive"),
    }
}

#[test]
fn exclusive_handle_converts() {
    let h = Input::new(String::from("in0"));
    assert!(h.try_into_exclusive().is_ok());
}

#[test]
fn take_raw_removes_the_capability() {
    let mut ins = InputHandles::from_pairs(vec![
        (String::from("in0"), Input::new(String::from("in0"))),
        (String::from("in1"), Input::new(String::from("in1"))),
    ]);
    let taken = ins.take_raw(&String::from("in0")).expect("the port exists");
    assert_eq!(taken.port_id(), "in0");
    assert_eq!(ins.len(), 1);
    match ins.take_raw(&String::from("in0")) {
        Err(BridgeError::NotFound(_)) => {}
        _ => panic!("a taken port is gone"),
    }

    let mut outs = OutputHandles::from_pairs(vec![(
        String::from("out0"),
        Output::new(String::from("out0")),
    )]);
    assert!(outs.take_raw(&String::from("out0")).is_ok());
    match outs.take_raw(&String::from("missing")) {
        Err(BridgeError::NotFound(_)) => {}
        _ => panic!("an unknown port is a lookup miss"),
    }
}
