use zenoh_flow_python::error::BridgeError;
use zenoh_flow_python::foreign::ForeignValue;
use zenoh_flow_python::foreign::dict_get;
use zenoh_flow_python::message::DataMessage;
use zenoh_flow_python::timestamp::TimestampRepr;
use zenoh_flow_python::token::InputToken;
use zenoh_flow_python::token::InputTokens;
use zenoh_flow_python::token::TokenAction;
use zenoh_flow_python::token::token_from_foreign;
use zenoh_flow_python::token::token_to_foreign;
use zenoh_flow_python::token::tokens_to_foreign;

fn ready_token() -> InputToken {
    InputToken::Ready {
        action: TokenAction::Consume,
        data: DataMessage::new(
            vec![5, 6],
            TimestampRepr::new(11, String::from("b2")),
            false,
            vec![],
        ),
    }
}

#[test]
fn action_set_drop_is_observed_back() {
    let mut t = ready_token();
    t.set_action_drop();
    let back = token_from_foreign(&token_to_foreign(&t)).expect("round trip must succeed");
    assert_eq!(back.get_action(), "Drop");
}

#[test]
fn action_set_consume_is_observed_back() {
    let mut t = ready_token();
    t.set_action_keep();
    t.set_action_consume();
    let back = token_from_foreign(&token_to_foreign(&t)).expect("round trip must succeed");
    assert_eq!(back.get_action(), "Consume");
}

#[test]
fn action_set_keep_is_observed_back() {
    let mut t = ready_token();
    t.set_action_keep();
    let back = token_from_foreign(&token_to_foreign(&t)).expect("round trip must succeed");
    assert_eq!(back.get_action(), "Keep");
}

#[test]
fn ready_token_data_round_trips() {
    let t = ready_token();
    let back = token_from_foreign(&token_to_foreign(&t)).expect("round trip must succeed");
    assert!(back.is_ready());
    assert!(!back.is_pending());
    assert_eq!(back.get_data().expect("a ready token has data"), vec![5u8, 6]);
    assert_eq!(back.get_timestamp(), "11/b2");
}

#[test]
fn pending_token_round_trips() {
    let back =
        token_from_foreign(&token_to_foreign(&InputToken::Pending)).expect("round trip");
    assert!(back.is_pending());
    assert_eq!(back.get_action(), "Pending");
    assert_eq!(back.get_timestamp(), "");
    match back.get_data() {
        Err(BridgeError::InvalidData(t)) => assert_eq!(t, "Pending Token has no data"),
        _ => panic!("a pending token has no data"),
    }
}

#[test]
fn action_codes_are_a_closed_enumeration() {
    assert!(matches!(TokenAction::from_code(0), Ok(TokenAction::Discard)));
    assert!(matches!(TokenAction::from_code(1), Ok(TokenAction::Consume)));
    assert!(matches!(TokenAction::from_code(2), Ok(TokenAction::Keep)));
    match TokenAction::from_code(3) {
        Err(BridgeError::InvalidData(_)) => {}
        _ => panic!("any other code is an unrecoverable error, not a default"),
    }
    assert_eq!(TokenAction::Discard.code(), 0);
    assert_eq!(TokenAction::Consume.code(), 1);
    assert_eq!(TokenAction::Keep.code(), 2);
}

#[test]
fn out_of_range_action_is_invalid_data() {
    let t = ready_token();
    let fv = token_to_foreign(&t);
    let broken = match fv {
        ForeignValue::Dict(mut entries) => {
            entries[1].1 = ForeignValue::Int { negative: false, magnitude: 7 };
            ForeignValue::Dict(entries)
        }
        _ => panic!("a token marshals to a dictionary"),
    };
    match token_from_foreign(&broken) {
        Err(BridgeError::InvalidData(_)) => {}
        _ => panic!("an action code outside the enumeration is invalid data"),
    }
}

#[test]
fn pending_token_keeps_its_action_calls() {
    let mut t = InputToken::Pending;
    t.set_action_drop();
    assert!(t.is_pending());
}

#[test]
fn tokens_lookup_miss_is_not_found() {
    let tokens = InputTokens::from_pairs(vec![(String::from("in0"), InputToken::Pending)]);
    assert!(tokens.get(&String::from("in0")).is_ok());
    match tokens.get(&String::from("in1")) {
        Err(BridgeError::NotFound(_)) => {}
        _ => panic!("a port without a token is a lookup miss"),
    }
}

#[test]
fn token_set_marshals_per_port() {
    let tokens = InputTokens::from_pairs(vec![
        (String::from("in0"), InputToken::Pending),
        (String::from("in1"), ready_token()),
    ]);
    match tokens_to_foreign(&tokens) {
        ForeignValue::Dict(entries) => {
            assert_eq!(entries.len(), 2);
            let pending = dict_get(&entries, &String::from("in0")).expect("in0 is present");
            let back = token_from_foreign(pending).expect("the token reads back");
            assert!(back.is_pending());
            let ready = dict_get(&entries, &String::from("in1")).expect("in1 is present");
            let back = token_from_foreign(ready).expect("the token reads back");
            assert!(back.is_ready());
        }
        _ => panic!("tokens marshal to a dictionary"),
    }
}
