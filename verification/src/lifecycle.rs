//! The interpreter lifecycle of a node.
//!
//! Node construction walks a fixed chain of phases: the shared interpreter
//! is initialized once, the user's script is compiled as a module, the
//! module-level factory is invoked, and the instance is constructed with
//! the converted configuration and its port capabilities.  Any foreign
//! failure on the way aborts construction — there are no partial nodes.
//! The node's interpreter state is shared by reference across its tasks
//! and released exactly once, when the last reference is dropped, which
//! triggers a single, best-effort call to the foreign `finalize`; a
//! failure of that call is logged by the shell and never propagated, so
//! teardown cannot destabilize the process.
//!
//! Before the first interpreter initialization the bridge's own shared
//! library must have been re-loaded with global symbol binding (the
//! self-registration step): without it, extension loading inside the
//! interpreter cannot resolve the bridge's own symbols.  The state machine
//! refuses to begin setup until that step is recorded.

use crate::error::contains_seq;
use crate::error::from_foreign_exception;
use crate::error::BridgeError;
use vstd::prelude::*;
use vstd::string::StringExecFns;

verus! {

/// The role of a node in the dataflow graph.
#[derive(Clone, Copy)]
pub enum NodeKind {
    Source,
    Sink,
    Operator,
}

/// Whether a node's initializer receives receive capabilities: every kind
/// but a Source consumes data.
pub open spec fn wants_inputs(kind: NodeKind) -> bool {
    !(kind is Source)
}

/// Whether a node's initializer receives send capabilities: every kind but
/// a Sink produces data.
pub open spec fn wants_outputs(kind: NodeKind) -> bool {
    !(kind is Sink)
}

impl NodeKind {
    /// Which port capabilities the initializer of this kind of node is
    /// handed: a Source gets outputs only, a Sink inputs only, an Operator
    /// both.
    pub fn constructor_ports(&self) -> (r: (bool, bool))
        ensures
            r.0 == wants_inputs(*self),
            r.1 == wants_outputs(*self),
    {
        match self {
            NodeKind::Source => (false, true),
            NodeKind::Sink => (true, false),
            NodeKind::Operator => (true, true),
        }
    }
}

/// The phases of a node's interpreter lifecycle, in the order setup walks
/// them.
#[derive(Clone, Copy)]
pub enum LifecyclePhase {
    Uninitialized,
    InterpreterReady,
    ScriptLoaded,
    FactoryResolved,
    InstanceConstructed,
    Running,
    Finalized,
}

/// Whether a phase still has a setup step ahead of it.
pub open spec fn in_setup(p: LifecyclePhase) -> bool {
    p is Uninitialized || p is InterpreterReady || p is ScriptLoaded || p is FactoryResolved
}

/// The phase a completed setup step leads to.
pub open spec fn next_phase(p: LifecyclePhase) -> LifecyclePhase {
    match p {
        LifecyclePhase::Uninitialized => LifecyclePhase::InterpreterReady,
        LifecyclePhase::InterpreterReady => LifecyclePhase::ScriptLoaded,
        LifecyclePhase::ScriptLoaded => LifecyclePhase::FactoryResolved,
        LifecyclePhase::FactoryResolved => LifecyclePhase::InstanceConstructed,
        LifecyclePhase::InstanceConstructed => LifecyclePhase::Running,
        _ => p,
    }
}

/// What the unverified shell reports of one setup step's foreign work:
/// it completed, or the interpreter raised, with the exception already
/// rendered as its message and traceback text.
pub enum StepOutcome {
    Completed,
    Raised { message: String, traceback: String },
}

/// The lifecycle state of one node.
pub struct NodeState {
    /// The node's role.
    pub kind: NodeKind,
    /// Whether the self-registration step has run.
    pub registered: bool,
    /// The current lifecycle phase.
    pub phase: LifecyclePhase,
    /// How many references to the interpreter state are outstanding.
    pub refs: u64,
}

impl NodeState {
    /// The state machine's invariant: a finalized node holds no
    /// references, and a node holding references is not finalized.
    pub open spec fn wf(&self) -> bool {
        self.phase is Finalized <==> self.refs == 0
    }

    /// A freshly created node: nothing registered, nothing initialized,
    /// one owning reference.
    pub fn new(kind: NodeKind) -> (r: NodeState)
        ensures
            r.kind == kind,
            !r.registered,
            r.phase is Uninitialized,
            r.refs == 1,
            r.wf(),
    {
        NodeState { kind, registered: false, phase: LifecyclePhase::Uninitialized, refs: 1 }
    }

    /// Records that the bridge's own shared library has been force-loaded
    /// with global symbol binding.  Setup refuses to start without this.
    pub fn mark_registered(&mut self)
        ensures
            *final(self) == (NodeState { registered: true, ..*old(self) }),
    {
        self.registered = true;
    }

    /// Advances setup by one step, according to what the foreign work of
    /// that step reported.
    ///
    /// A step may run only after self-registration and only from a phase
    /// that still has a setup step ahead.  A completed step moves to the
    /// next phase.  An interpreter-side exception aborts construction: the
    /// phase does not advance, and the error carries the foreign message
    /// and traceback — as `InvalidState` when the factory call failed,
    /// as `InvalidData` for every other step.
    pub fn advance_setup(&mut self, outcome: StepOutcome) -> (r: Result<(), BridgeError>)
        requires
            old(self).registered,
            in_setup(old(self).phase),
            old(self).wf(),
        ensures
            final(self).wf(),
            final(self).kind == old(self).kind,
            final(self).registered,
            final(self).refs == old(self).refs,
            match outcome {
                StepOutcome::Completed => r is Ok && final(self).phase == next_phase(
                    old(self).phase,
                ),
                StepOutcome::Raised { message, traceback } => {
                    &&& r matches Result::Err(e)
                    &&& final(self).phase == old(self).phase
                    &&& contains_seq(e.spec_text(), message@)
                    &&& contains_seq(e.spec_text(), traceback@)
                    &&& (e is InvalidState <==> old(self).phase is ScriptLoaded)
                    &&& (e is InvalidState || e is InvalidData)
                },
            },
    {
        match outcome {
            StepOutcome::Completed => {
                let next = match self.phase {
                    LifecyclePhase::Uninitialized => LifecyclePhase::InterpreterReady,
                    LifecyclePhase::InterpreterReady => LifecyclePhase::ScriptLoaded,
                    LifecyclePhase::ScriptLoaded => LifecyclePhase::FactoryResolved,
                    _ => LifecyclePhase::InstanceConstructed,
                };
                self.phase = next;
                Result::Ok(())
            },
            StepOutcome::Raised { message, traceback } => {
                let wrapped = from_foreign_exception(message.as_str(), traceback.as_str());
                let factory_step = match self.phase {
                    LifecyclePhase::ScriptLoaded => true,
                    _ => false,
                };
                if factory_step {
                    let text = match wrapped {
                        BridgeError::InvalidData(t) => t,
                        _ => String::new(),
                    };
                    Result::Err(BridgeError::InvalidState(text))
                } else {
                    Result::Err(wrapped)
                }
            },
        }
    }

    /// Enters normal iteration once the instance stands.
    pub fn start_running(&mut self)
        requires
            old(self).phase is InstanceConstructed,
            old(self).wf(),
        ensures
            *final(self) == (NodeState { phase: LifecyclePhase::Running, ..*old(self) }),
            final(self).wf(),
    {
        self.phase = LifecyclePhase::Running;
    }

    /// Records one more reference to the node's interpreter state.
    pub fn acquire(&mut self)
        requires
            old(self).refs > 0,
            old(self).refs < u64::MAX,
            old(self).wf(),
        ensures
            *final(self) == (NodeState { refs: (old(self).refs + 1) as u64, ..*old(self) }),
            final(self).wf(),
    {
        self.refs = self.refs + 1;
    }

    /// Releases one reference to the node's interpreter state.
    ///
    /// Exactly when the last reference goes, the node reaches its terminal
    /// phase and the result instructs the shell to make its single,
    /// best-effort foreign `finalize` call; a failure of that call is to
    /// be logged, never propagated.  A finalized node cannot be released
    /// again, so `finalize` is triggered at most once per node.
    pub fn release(&mut self) -> (finalize_now: bool)
        requires
            old(self).refs > 0,
            old(self).wf(),
        ensures
            final(self).wf(),
            final(self).refs == old(self).refs - 1,
            final(self).kind == old(self).kind,
            final(self).registered == old(self).registered,
            finalize_now == (final(self).refs == 0),
            finalize_now ==> final(self).phase is Finalized,
            !finalize_now ==> final(self).phase == old(self).phase,
    {
        self.refs = self.refs - 1;
        if self.refs == 0 {
            self.phase = LifecyclePhase::Finalized;
            true
        } else {
            false
        }
    }
}

} // verus!
