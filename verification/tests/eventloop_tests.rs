use zenoh_flow_python::bridge::CallOutcome;
use zenoh_flow_python::bridge::InterpreterLock;
use zenoh_flow_python::error::BridgeError;
use zenoh_flow_python::eventloop::DrivePhase;
use zenoh_flow_python::eventloop::EventLoop;
use zenoh_flow_python::foreign::ForeignValue;

#[test]
fn cancelled_iteration_leaves_the_loop_usable() {
    let mut lock = InterpreterLock::new();
    let mut lp = EventLoop::new();

    // An in-flight Source iteration: the coroutine was obtained and its
    // future is being awaited when the native task is cancelled.
    lp.begin_iteration(&mut lock);
    lp.convert_coroutine(&mut lock, CallOutcome::Return(ForeignValue::Nil))
        .expect("the coroutine converts");
    assert!(matches!(lp.phase, DrivePhase::Awaiting));
    lp.cancel();
    assert!(matches!(lp.phase, DrivePhase::Idle));
    assert_eq!(lp.abandoned, 1);
    assert_eq!(lp.completed, 0);
    assert!(lock.holder.is_none());

    // The loop is intact: a subsequent iteration runs to completion.
    lp.begin_iteration(&mut lock);
    lp.convert_coroutine(&mut lock, CallOutcome::Return(ForeignValue::Nil))
        .expect("the coroutine converts");
    let r = lp.finish_await(CallOutcome::Return(ForeignValue::Bytes(vec![1])));
    assert!(r.is_ok());
    assert_eq!(lp.completed, 1);
    assert_eq!(lp.abandoned, 1);
}

#[test]
fn sink_iteration_exception_carries_its_message() {
    let mut lock = InterpreterLock::new();
    let mut lp = EventLoop::new();
    lp.begin_iteration(&mut lock);
    lp.convert_coroutine(&mut lock, CallOutcome::Return(ForeignValue::Nil))
        .expect("the coroutine converts");
    let err = lp
        .finish_await(CallOutcome::Raise {
            message: String::from("boom"),
            traceback: String::from("File \"sink.py\", line 9"),
        })
        .expect_err("a raising coroutine fails the iteration");
    match &err {
        BridgeError::InvalidData(t) => {
            assert!(t.contains("boom"));
            assert!(t.contains("sink.py"));
        }
        _ => panic!("a foreign exception surfaces as invalid data"),
    }
    assert_eq!(lp.completed, 0);
    assert!(matches!(lp.phase, DrivePhase::Idle));
}

#[test]
fn failure_to_obtain_the_coroutine_releases_the_lock() {
    let mut lock = InterpreterLock::new();
    let mut lp = EventLoop::new();
    lp.begin_iteration(&mut lock);
    assert!(lock.holder.is_some());
    let err = lp
        .convert_coroutine(
            &mut lock,
            CallOutcome::Raise {
                message: String::from("iteration is not defined"),
                traceback: String::from("tb"),
            },
        )
        .expect_err("a raising call ends the iteration");
    assert!(matches!(err, BridgeError::InvalidData(_)));
    assert!(lock.holder.is_none());
    assert!(matches!(lp.phase, DrivePhase::Idle));
}

#[test]
fn await_happens_without_the_lock() {
    let mut lock = InterpreterLock::new();
    let mut lp = EventLoop::new();
    lp.begin_iteration(&mut lock);
    assert!(lock.holder.is_some());
    lp.convert_coroutine(&mut lock, CallOutcome::Return(ForeignValue::Nil))
        .expect("the coroutine converts");
    // The future is awaited only after the lock is released, so the
    // coroutine's own bridged calls can take it.
    assert!(matches!(lp.phase, DrivePhase::Awaiting));
    assert!(lock.holder.is_none());
}
