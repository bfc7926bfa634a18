//! The async bridge: one foreign event loop per node.
//!
//! Each node owns a cooperative event loop created at its construction and
//! never shared with another node.  One iteration follows a fixed
//! choreography: take the interpreter lock, call the foreign method that
//! returns a coroutine, bind that coroutine to the node's loop as a native
//! future, release the lock, and only then await the future — awaiting is
//! the single operation of the whole bridge that suspends without the
//! lock, and it must be, because the coroutine's body may itself need the
//! lock while it runs.
//!
//! Cancellation policy: when the native task driving an iteration is
//! cancelled, the foreign coroutine is not forcibly terminated — it is
//! abandoned, and may run until its next yield point.  The loop itself
//! remains intact and can drive the next iteration at once; the abandoned
//! count records the known, bounded leak.

use crate::bridge::CallOutcome;
use crate::bridge::InterpreterLock;
use crate::error::contains_seq;
use crate::error::from_foreign_exception;
use crate::error::BridgeError;
use crate::foreign::ForeignValue;
use vstd::prelude::*;

verus! {

/// Where one iteration of a node stands in the drive choreography.
pub enum DrivePhase {
    Idle,
    Locked,
    Converted,
    Awaiting,
}

/// The drive state of one node's event loop.
pub struct EventLoop {
    /// Where the current iteration stands.
    pub phase: DrivePhase,
    /// The call id of the critical section this iteration holds, if any.
    pub holding: Option<u64>,
    /// How many iterations have completed.
    pub completed: u64,
    /// How many coroutines were abandoned by cancellation.
    pub abandoned: u64,
}

impl EventLoop {
    /// The drive invariant: the lock is held exactly between taking it and
    /// releasing it for the await — never across the await itself.
    pub open spec fn wf(&self) -> bool {
        &&& (self.phase is Locked || self.phase is Converted) <==> self.holding is Some
        &&& (self.phase is Awaiting ==> self.holding is None)
    }

    /// A fresh event loop with no iteration in flight.
    pub fn new() -> (r: EventLoop)
        ensures
            r.wf(),
            r.phase is Idle,
            r.holding is None,
            r.completed == 0,
            r.abandoned == 0,
    {
        EventLoop {
            phase: DrivePhase::Idle,
            holding: Option::None,
            completed: 0,
            abandoned: 0,
        }
    }

    /// Begins an iteration: takes the interpreter lock for the call that
    /// will produce the coroutine.
    pub fn begin_iteration(&mut self, lock: &mut InterpreterLock)
        requires
            old(self).wf(),
            old(self).phase is Idle,
            old(lock).wf(),
            old(lock).holder is None,
            old(lock).next_id < u64::MAX,
        ensures
            final(self).wf(),
            final(self).phase is Locked,
            final(self).holding == final(lock).holder,
            final(self).completed == old(self).completed,
            final(self).abandoned == old(self).abandoned,
            final(lock).wf(),
            final(lock).holder is Some,
    {
        let id = lock.acquire();
        self.phase = DrivePhase::Locked;
        self.holding = Option::Some(id);
    }

    /// Converts the foreign call's outcome under the lock: a returned
    /// coroutine is bound to the node's loop as a native future; an
    /// exception ends the iteration here, with the lock released and the
    /// foreign diagnosis carried in an `InvalidData` error.
    pub fn convert_coroutine(&mut self, lock: &mut InterpreterLock, outcome: CallOutcome) -> (r:
        Result<(), BridgeError>)
        requires
            old(self).wf(),
            old(self).phase is Locked,
            old(lock).wf(),
            old(lock).holder == old(self).holding,
        ensures
            final(self).wf(),
            final(lock).wf(),
            final(lock).holder is None,
            final(self).completed == old(self).completed,
            final(self).abandoned == old(self).abandoned,
            match outcome {
                CallOutcome::Return(_) => r is Ok && final(self).phase is Awaiting,
                CallOutcome::Raise { message, traceback } => {
                    &&& r matches Result::Err(e)
                    &&& final(self).phase is Idle
                    &&& e is InvalidData
                    &&& contains_seq(e.spec_text(), message@)
                    &&& contains_seq(e.spec_text(), traceback@)
                },
            },
    {
        match outcome {
            CallOutcome::Return(_) => {
                self.phase = DrivePhase::Converted;
                lock.release();
                self.holding = Option::None;
                self.phase = DrivePhase::Awaiting;
                Result::Ok(())
            },
            CallOutcome::Raise { message, traceback } => {
                lock.release();
                self.holding = Option::None;
                self.phase = DrivePhase::Idle;
                Result::Err(from_foreign_exception(message.as_str(), traceback.as_str()))
            },
        }
    }

    /// Ends the await with what the coroutine's run reported: a completed
    /// iteration, or the exception the coroutine raised, rendered as an
    /// `InvalidData` error whose text carries the foreign message.
    pub fn finish_await(&mut self, outcome: CallOutcome) -> (r: Result<ForeignValue, BridgeError>)
        requires
            old(self).wf(),
            old(self).phase is Awaiting,
            old(self).completed < u64::MAX,
        ensures
            final(self).wf(),
            final(self).phase is Idle,
            final(self).holding is None,
            final(self).abandoned == old(self).abandoned,
            match outcome {
                CallOutcome::Return(v) => r == Result::<ForeignValue, BridgeError>::Ok(v)
                    && final(self).completed == old(self).completed + 1,
                CallOutcome::Raise { message, traceback } => {
                    &&& r matches Result::Err(e)
                    &&& e is InvalidData
                    &&& contains_seq(e.spec_text(), message@)
                    &&& contains_seq(e.spec_text(), traceback@)
                    &&& final(self).completed == old(self).completed
                },
            },
    {
        self.phase = DrivePhase::Idle;
        match outcome {
            CallOutcome::Return(v) => {
                self.completed = self.completed + 1;
                Result::Ok(v)
            },
            CallOutcome::Raise { message, traceback } => Result::Err(
                from_foreign_exception(message.as_str(), traceback.as_str()),
            ),
        }
    }

    /// Cancels the iteration whose future is being awaited.
    ///
    /// The coroutine is abandoned, not terminated: it may still run to its
    /// next yield point.  The loop itself stays intact — the state returns
    /// to idle, nothing is counted as completed, and the next iteration
    /// can begin immediately.
    pub fn cancel(&mut self)
        requires
            old(self).wf(),
            old(self).phase is Awaiting,
            old(self).abandoned < u64::MAX,
        ensures
            *final(self) == after_cancel(*old(self)),
            final(self).wf(),
    {
        self.phase = DrivePhase::Idle;
        self.abandoned = self.abandoned + 1;
    }
}

/// The state a cancellation leaves behind: idle, holding nothing, the
/// completion count kept, one more coroutine on record as abandoned.
pub open spec fn after_cancel(s: EventLoop) -> EventLoop {
    EventLoop {
        phase: DrivePhase::Idle,
        holding: Option::None,
        completed: s.completed,
        abandoned: (s.abandoned + 1) as u64,
    }
}

/// Cancelling an in-flight iteration leaves the event loop intact: from
/// every awaiting state, the state cancellation produces is well-formed,
/// idle and holding no part of the interpreter lock — exactly what
/// beginning the next iteration requires of the loop — and nothing that
/// completed is forgotten; only the abandoned-coroutine count records the
/// known, bounded leak.
pub proof fn lemma_cancelled_loop_runs_again(s: EventLoop)
    requires
        s.wf(),
        s.phase is Awaiting,
        s.abandoned < u64::MAX,
    ensures
        after_cancel(s).wf(),
        after_cancel(s).phase is Idle,
        after_cancel(s).holding is None,
        after_cancel(s).completed == s.completed,
        after_cancel(s).abandoned == s.abandoned + 1,
{
}

} // verus!
