use zenoh_flow_python::error::BridgeError;
use zenoh_flow_python::lifecycle::LifecyclePhase;
use zenoh_flow_python::lifecycle::NodeKind;
use zenoh_flow_python::lifecycle::NodeState;
use zenoh_flow_python::lifecycle::StepOutcome;

#[test]
fn setup_walks_the_phase_chain() {
    let mut node = NodeState::new(NodeKind::Sink);
    node.mark_registered();
    assert!(matches!(node.phase, LifecyclePhase::Uninitialized));
    node.advance_setup(StepOutcome::Completed).expect("interpreter init");
    assert!(matches!(node.phase, LifecyclePhase::InterpreterReady));
    node.advance_setup(StepOutcome::Completed).expect("script load");
    assert!(matches!(node.phase, LifecyclePhase::ScriptLoaded));
    node.advance_setup(StepOutcome::Completed).expect("factory call");
    assert!(matches!(node.phase, LifecyclePhase::FactoryResolved));
    node.advance_setup(StepOutcome::Completed).expect("instance construction");
    assert!(matches!(node.phase, LifecyclePhase::InstanceConstructed));
    node.start_running();
    assert!(matches!(node.phase, LifecyclePhase::Running));
}

#[test]
fn factory_failure_is_invalid_state() {
    let mut node = NodeState::new(NodeKind::Operator);
    node.mark_registered();
    node.advance_setup(StepOutcome::Completed).unwrap();
    node.advance_setup(StepOutcome::Completed).unwrap();
    let err = node
        .advance_setup(StepOutcome::Raised {
            message: String::from("no register symbol"),
            traceback: String::from("tb"),
        })
        .expect_err("a failed factory call aborts construction");
    match &err {
        BridgeError::InvalidState(t) => {
            assert!(t.contains("no register symbol"));
            assert!(t.contains("tb"));
        }
        _ => panic!("a failed factory call is an invalid state"),
    }
    assert!(matches!(node.phase, LifecyclePhase::ScriptLoaded));
}

#[test]
fn interpreter_exception_is_invalid_data_with_traceback() {
    let mut node = NodeState::new(NodeKind::Source);
    node.mark_registered();
    let err = node
        .advance_setup(StepOutcome::Raised {
            message: String::from("import failed"),
            traceback: String::from("File \"s.py\""),
        })
        .expect_err("an interpreter exception aborts construction");
    match &err {
        BridgeError::InvalidData(t) => {
            assert!(t.contains("import failed"));
            assert!(t.contains("File \"s.py\""));
        }
        _ => panic!("an interpreter exception during setup is invalid data"),
    }
    assert!(matches!(node.phase, LifecyclePhase::Uninitialized));
}

#[test]
fn release_of_last_reference_finalizes_once() {
    let mut node = NodeState::new(NodeKind::Sink);
    node.acquire();
    node.acquire();
    assert_eq!(node.refs, 3);
    assert!(!node.release());
    assert!(!node.release());
    assert!(matches!(node.phase, LifecyclePhase::Uninitialized));
    assert!(node.release());
    assert!(matches!(node.phase, LifecyclePhase::Finalized));
    assert_eq!(node.refs, 0);
}

#[test]
fn constructor_ports_follow_the_node_kind() {
    assert_eq!(NodeKind::Source.constructor_ports(), (false, true));
    assert_eq!(NodeKind::Sink.constructor_ports(), (true, false));
    assert_eq!(NodeKind::Operator.constructor_ports(), (true, true));
}
