use zenoh_flow_python::bridge::CallOutcome;
use zenoh_flow_python::bridge::InterpreterLock;
use zenoh_flow_python::bridge::LockEvent;
use zenoh_flow_python::bridge::bridged_call;
use zenoh_flow_python::bridge::complete_call;
use zenoh_flow_python::error::BridgeError;
use zenoh_flow_python::error::from_foreign_exception;
use zenoh_flow_python::error::join_error_chain;
use zenoh_flow_python::foreign::ForeignValue;

#[test]
fn lock_trace_records_each_call() {
    let mut lock = InterpreterLock::new();
    let a = lock.acquire();
    lock.release();
    let b = lock.acquire();
    lock.release();
    assert_eq!(a, 0);
    assert_eq!(b, 1);
    assert_eq!(lock.log.len(), 4);
    assert!(matches!(lock.log[0], LockEvent::Enter(0)));
    assert!(matches!(lock.log[1], LockEvent::Exit(0)));
    assert!(matches!(lock.log[2], LockEvent::Enter(1)));
    assert!(matches!(lock.log[3], LockEvent::Exit(1)));
}

#[test]
fn concurrent_load_never_interleaves_sections() {
    // Many nodes sharing the one interpreter, interleaved in an arbitrary
    // schedule: every bridged call opens and closes its own section before
    // the next can open.  The trace is scanned for an overlap.
    let mut lock = InterpreterLock::new();
    for round in 0..50u64 {
        let outcome = if round % 3 == 0 {
            CallOutcome::Raise {
                message: format!("node {} failed", round % 7),
                traceback: String::from("trace"),
            }
        } else {
            CallOutcome::Return(ForeignValue::Int { negative: false, magnitude: round })
        };
        let _ = bridged_call(&mut lock, outcome);
    }
    let mut open: Option<u64> = None;
    for event in lock.log.iter() {
        match event {
            LockEvent::Enter(id) => {
                assert!(open.is_none(), "a section opened inside another");
                open = Some(*id);
            }
            LockEvent::Exit(id) => {
                assert_eq!(open, Some(*id), "a section closed by the wrong call");
                open = None;
            }
        }
    }
    assert!(open.is_none());
}

#[test]
fn returned_value_passes_through() {
    let v = ForeignValue::Text(String::from("payload"));
    match complete_call(CallOutcome::Return(v)) {
        Ok(ForeignValue::Text(s)) => assert_eq!(s, "payload"),
        _ => panic!("a returned value passes through unchanged"),
    }
}

#[test]
fn raised_exception_carries_message_and_traceback() {
    let outcome = CallOutcome::Raise {
        message: String::from("boom"),
        traceback: String::from("File \"s.py\", line 3"),
    };
    match complete_call(outcome) {
        Err(e) => {
            assert!(matches!(e, BridgeError::InvalidData(_)));
            assert!(e.text().contains("boom"));
            assert!(e.text().contains("File \"s.py\", line 3"));
        }
        _ => panic!("a raised exception becomes an error"),
    }
}

#[test]
fn exception_text_format_is_stable() {
    let e = from_foreign_exception("boom", "tb");
    match e {
        BridgeError::InvalidData(t) => assert_eq!(t, "Error: boom\nTraceback: tb"),
        _ => panic!("a foreign exception is invalid data"),
    }
}

#[test]
fn bridged_call_leaves_the_lock_free() {
    let mut lock = InterpreterLock::new();
    let (id, r) = bridged_call(
        &mut lock,
        CallOutcome::Return(ForeignValue::Nil),
    );
    assert_eq!(id, 0);
    assert!(r.is_ok());
    assert!(lock.holder.is_none());
    assert_eq!(lock.log.len(), 2);
}

#[test]
fn error_chain_flattens_line_by_line() {
    let parts = vec![String::from("outer"), String::from("middle"), String::from("root")];
    assert_eq!(join_error_chain(&parts), "\nouter\nmiddle\nroot");
    assert_eq!(join_error_chain(&Vec::new()), "");
}
