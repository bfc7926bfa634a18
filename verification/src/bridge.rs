//! The call bridge and the interpreter lock's discipline.
//!
//! Every cross-boundary call holds the process-wide interpreter lock for
//! exactly the duration of one synchronous interpreter call — never for a
//! whole node iteration — so that nodes sharing the interpreter cannot
//! starve each other.  The lock is modelled here with call-id tracing: each
//! acquisition opens a critical section under a fresh call id and each
//! release closes it, and it is proved that in every trace the lock can
//! produce, no call's critical section overlaps another's.  Foreign
//! failures are captured with their traceback text and mapped to a single
//! formatted `InvalidData` error; the traceback is diagnostic only and is
//! never parsed.

use crate::error::contains_seq;
use crate::error::from_foreign_exception;
use crate::error::BridgeError;
use crate::foreign::ForeignValue;
use vstd::prelude::*;

verus! {

/// One step of the lock's call-id trace: a call id entering its critical
/// section, or leaving it.
pub enum LockEvent {
    Enter(u64),
    Exit(u64),
}

/// Whether a trace can have been produced by the lock, given which call
/// currently holds it: events pair up from the right, an entry only from a
/// free lock, an exit only by the holder.
pub open spec fn trace_wf(log: Seq<LockEvent>, active: Option<u64>) -> bool
    decreases log.len(),
{
    if log.len() == 0 {
        active is None
    } else {
        match log.last() {
            LockEvent::Enter(id) => active == Option::Some(id) && trace_wf(
                log.drop_last(),
                Option::None,
            ),
            LockEvent::Exit(id) => active is None && trace_wf(log.drop_last(), Option::Some(id)),
        }
    }
}

/// In a well-formed trace, every entry is followed immediately by its own
/// exit — except an entry standing last, whose call still holds the lock.
proof fn lemma_trace_alternation(log: Seq<LockEvent>, active: Option<u64>)
    requires
        trace_wf(log, active),
    ensures
        forall|i: int|
            0 <= i < log.len() - 1 && (#[trigger] log[i]) is Enter ==> log[i + 1]
                == LockEvent::Exit(log[i]->Enter_0),
        (log.len() > 0 && log.last() is Enter) ==> active == Option::Some(log.last()->Enter_0),
    decreases log.len(),
{
    if log.len() > 0 {
        match log.last() {
            LockEvent::Enter(id) => {
                lemma_trace_alternation(log.drop_last(), Option::None);
                assert forall|i: int|
                    0 <= i < log.len() - 1 && (#[trigger] log[i]) is Enter implies log[i + 1]
                    == LockEvent::Exit(log[i]->Enter_0) by {
                    if i < log.len() - 2 {
                        assert(log.drop_last()[i] == log[i]);
                        assert(log.drop_last()[i + 1] == log[i + 1]);
                    } else {
                        assert(log.drop_last().last() == log[i]);
                    }
                }
            },
            LockEvent::Exit(id) => {
                lemma_trace_alternation(log.drop_last(), Option::Some(id));
                assert forall|i: int|
                    0 <= i < log.len() - 1 && (#[trigger] log[i]) is Enter implies log[i + 1]
                    == LockEvent::Exit(log[i]->Enter_0) by {
                    if i < log.len() - 2 {
                        assert(log.drop_last()[i] == log[i]);
                        assert(log.drop_last()[i + 1] == log[i + 1]);
                    } else {
                        assert(log.drop_last().last() == log[i]);
                    }
                }
            },
        }
    }
}

/// No call's critical section overlaps another's: between any two entries
/// of a well-formed trace stands an exit of the earlier call.  Concurrent
/// calls from any number of nodes sharing the interpreter therefore never
/// interleave partial calls.
pub proof fn lemma_critical_sections_exclusive(log: Seq<LockEvent>, active: Option<u64>)
    requires
        trace_wf(log, active),
    ensures
        forall|i: int, j: int|
            #![trigger log[i], log[j]]
            0 <= i < j < log.len() && log[i] is Enter && log[j] is Enter ==> exists|k: int|
                i < k < j && log[k] == LockEvent::Exit(log[i]->Enter_0),
{
    lemma_trace_alternation(log, active);
    assert forall|i: int, j: int|
        0 <= i < j < log.len() && (#[trigger] log[i]) is Enter && (#[trigger] log[j])
        is Enter implies exists|k: int|
        i < k < j && log[k] == LockEvent::Exit(log[i]->Enter_0) by {
        assert(log[i + 1] == LockEvent::Exit(log[i]->Enter_0));
        assert(i + 1 != j);
        assert(i < i + 1 < j && log[i + 1] == LockEvent::Exit(log[i]->Enter_0));
    }
}

/// The process-wide interpreter lock, instrumented with call-id tracing.
///
/// Exactly one such value guards the embedded interpreter.  A native task
/// that finds the lock held waits until it is free; the model expresses
/// this by letting a critical section open only on a free lock.  No
/// fairness is promised between waiting nodes.
pub struct InterpreterLock {
    /// The call currently inside its critical section, if any.
    pub holder: Option<u64>,
    /// The next call id to hand out.
    pub next_id: u64,
    /// The trace of entries and exits so far.
    pub log: Vec<LockEvent>,
}

impl InterpreterLock {
    /// The lock's invariant: its trace is one the lock discipline can
    /// produce, with `holder` as the currently open call.
    pub open spec fn wf(&self) -> bool {
        trace_wf(self.log@, self.holder)
    }

    /// A fresh, free lock with an empty trace.
    pub fn new() -> (r: InterpreterLock)
        ensures
            r.wf(),
            r.holder is None,
            r.log@.len() == 0,
            r.next_id == 0,
    {
        InterpreterLock { holder: Option::None, next_id: 0, log: Vec::new() }
    }

    /// Opens a critical section under a fresh call id.
    ///
    /// Only a free lock can be acquired: a caller finding it held waits
    /// until the holder's single interpreter call has returned.
    pub fn acquire(&mut self) -> (id: u64)
        requires
            old(self).wf(),
            old(self).holder is None,
            old(self).next_id < u64::MAX,
        ensures
            final(self).wf(),
            id == old(self).next_id,
            final(self).holder == Option::Some(id),
            final(self).next_id == old(self).next_id + 1,
            final(self).log@ == old(self).log@.push(LockEvent::Enter(id)),
    {
        let id = self.next_id;
        self.next_id = self.next_id + 1;
        self.holder = Option::Some(id);
        self.log.push(LockEvent::Enter(id));
        proof {
            assert(self.log@.last() == LockEvent::Enter(id));
            assert(self.log@.drop_last() =~= old(self).log@);
        }
        id
    }

    /// Closes the open critical section.
    pub fn release(&mut self)
        requires
            old(self).wf(),
            old(self).holder is Some,
        ensures
            final(self).wf(),
            final(self).holder is None,
            final(self).next_id == old(self).next_id,
            final(self).log@ == old(self).log@.push(
                LockEvent::Exit(old(self).holder->Some_0),
            ),
    {
        let id = match self.holder {
            Option::Some(id) => id,
            Option::None => 0,
        };
        self.holder = Option::None;
        self.log.push(LockEvent::Exit(id));
        proof {
            assert(self.log@.last() == LockEvent::Exit(id));
            assert(self.log@.drop_last() =~= old(self).log@);
        }
    }
}

/// What the unverified shell reports of one foreign call made under the
/// lock: the value it returned, or the exception it raised, rendered as
/// its message and traceback text.
pub enum CallOutcome {
    Return(ForeignValue),
    Raise { message: String, traceback: String },
}

/// Maps a foreign call's outcome to the native result: a returned value
/// passes through; an exception becomes a single `InvalidData` error whose
/// formatted text carries the foreign message and traceback verbatim.
pub fn complete_call(outcome: CallOutcome) -> (r: Result<ForeignValue, BridgeError>)
    ensures
        match outcome {
            CallOutcome::Return(v) => r == Result::<ForeignValue, BridgeError>::Ok(v),
            CallOutcome::Raise { message, traceback } => {
                &&& r matches Result::Err(e)
                &&& e is InvalidData
                &&& contains_seq(e.spec_text(), message@)
                &&& contains_seq(e.spec_text(), traceback@)
            },
        },
{
    match outcome {
        CallOutcome::Return(v) => Result::Ok(v),
        CallOutcome::Raise { message, traceback } => Result::Err(
            from_foreign_exception(message.as_str(), traceback.as_str()),
        ),
    }
}

/// One bridged synchronous call: the critical section opens, the foreign
/// method runs inside it, and the section closes before the result is
/// handed back — the lock is held for exactly one interpreter call.
///
/// The foreign work itself happens in the unverified shell, which hands in
/// its outcome; whatever came back, the lock ends free and the trace has
/// grown by exactly the one entry/exit pair of this call.
pub fn bridged_call(lock: &mut InterpreterLock, outcome: CallOutcome) -> (r: (
    u64,
    Result<ForeignValue, BridgeError>,
))
    requires
        old(lock).wf(),
        old(lock).holder is None,
        old(lock).next_id < u64::MAX,
    ensures
        final(lock).wf(),
        final(lock).holder is None,
        final(lock).log@ == old(lock).log@.push(LockEvent::Enter(r.0)).push(
            LockEvent::Exit(r.0),
        ),
        match outcome {
            CallOutcome::Return(v) => r.1 == Result::<ForeignValue, BridgeError>::Ok(v),
            CallOutcome::Raise { message, traceback } => {
                &&& r.1 matches Result::Err(e)
                &&& e is InvalidData
                &&& contains_seq(e.spec_text(), message@)
                &&& contains_seq(e.spec_text(), traceback@)
            },
        },
{
    let id = lock.acquire();
    let result = complete_call(outcome);
    lock.release();
    (id, result)
}

} // verus!
