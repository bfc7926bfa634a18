//! Error taxonomy of the bridge.
//!
//! Every failure that crosses the boundary between the native runtime and the
//! embedded interpreter is mapped onto one of a closed set of variants.  A
//! foreign exception is always carried together with its traceback text so
//! that the native side can diagnose it; the traceback is advisory only and
//! is never parsed.

use vstd::prelude::*;
use vstd::string::StringExecFns;

verus! {

/// The closed error taxonomy of the bridge.
///
/// - `InvalidState`: missing or malformed reserved configuration, or a failed
///   factory call during node construction.
/// - `InvalidData`: an interpreter-side exception during a bridged call,
///   tagged with its formatted message and traceback text.
/// - `Deserialization`: a malformed identifier or timestamp crossing the
///   boundary.
/// - `TypeConversion`: a numeric or type mismatch during marshalling.
/// - `NotFound`: a port-id lookup miss when wiring callbacks.
/// - `Unimplemented`: an explicitly reserved, not yet supported conversion;
///   it fails loudly and never silently does nothing.
#[derive(Debug)]
pub enum BridgeError {
    InvalidState(String),
    InvalidData(String),
    Deserialization(String),
    TypeConversion(String),
    NotFound(String),
    Unimplemented(String),
}

impl BridgeError {
    /// The diagnostic text carried by the error, whatever its variant.
    pub open spec fn spec_text(&self) -> Seq<char> {
        match self {
            BridgeError::InvalidState(t) => t@,
            BridgeError::InvalidData(t) => t@,
            BridgeError::Deserialization(t) => t@,
            BridgeError::TypeConversion(t) => t@,
            BridgeError::NotFound(t) => t@,
            BridgeError::Unimplemented(t) => t@,
        }
    }

    /// Hands out the diagnostic text of the error.
    pub fn text(&self) -> (r: &String)
        ensures
            r@ == self.spec_text(),
    {
        match self {
            BridgeError::InvalidState(t) => t,
            BridgeError::InvalidData(t) => t,
            BridgeError::Deserialization(t) => t,
            BridgeError::TypeConversion(t) => t,
            BridgeError::NotFound(t) => t,
            BridgeError::Unimplemented(t) => t,
        }
    }
}

/// Whether `needle` occurs contiguously somewhere inside `hay`.
pub open spec fn contains_seq(hay: Seq<char>, needle: Seq<char>) -> bool {
    exists|i: int|
        0 <= i && i + needle.len() <= hay.len() && #[trigger] hay.subrange(i, i + needle.len())
            == needle
}

/// A sequence built as `a + b + c` contains `b`.
pub proof fn lemma_concat_contains(a: Seq<char>, b: Seq<char>, c: Seq<char>)
    ensures
        contains_seq(a + b + c, b),
{
    let hay = a + b + c;
    let i = a.len() as int;
    assert(hay.subrange(i, i + b.len()) =~= b);
}

/// Maps an interpreter-side exception, already rendered as its message and
/// its traceback text, to the native error value.  The resulting text keeps
/// both parts verbatim so that nothing of the foreign diagnosis is lost.
pub fn from_foreign_exception(message: &str, traceback: &str) -> (r: BridgeError)
    ensures
        r matches BridgeError::InvalidData(t) && t@ == "Error: "@ + message@
            + "\nTraceback: "@ + traceback@,
        contains_seq(r.spec_text(), message@),
        contains_seq(r.spec_text(), traceback@),
{
    let text = String::from_str("Error: ").concat(message).concat("\nTraceback: ").concat(
        traceback,
    );
    proof {
        lemma_concat_contains("Error: "@, message@, "\nTraceback: "@ + traceback@);
        assert("Error: "@ + message@ + ("\nTraceback: "@ + traceback@) =~= "Error: "@ + message@
            + "\nTraceback: "@ + traceback@);
        lemma_concat_contains("Error: "@ + message@ + "\nTraceback: "@, traceback@, Seq::empty());
        assert("Error: "@ + message@ + "\nTraceback: "@ + traceback@ + Seq::<char>::empty()
            =~= "Error: "@ + message@ + "\nTraceback: "@ + traceback@);
    }
    BridgeError::InvalidData(text)
}

/// The rendering of an error chain: every message in order, each preceded
/// by a line break, as the chain of causes is flattened for the foreign
/// side.
pub open spec fn chained_text(parts: Seq<Seq<char>>) -> Seq<char>
    decreases parts,
{
    if parts.len() == 0 {
        Seq::empty()
    } else {
        chained_text(parts.drop_last()) + "\n"@ + parts.last()
    }
}

/// Flattens a chain of error messages into one diagnostic text, each
/// message on a line of its own.
pub fn join_error_chain(parts: &Vec<String>) -> (r: String)
    ensures
        r@ == chained_text(parts@.map_values(|p: String| p@)),
{
    let mut acc = String::new();
    let mut i: usize = 0;
    while i < parts.len()
        invariant
            0 <= i <= parts@.len(),
            acc@ == chained_text(parts@.map_values(|p: String| p@).take(i as int)),
        decreases parts@.len() - i,
    {
        let ghost before = parts@.map_values(|p: String| p@).take(i as int);
        acc.append("\n");
        acc.append(parts[i].as_str());
        i = i + 1;
        proof {
            let now = parts@.map_values(|p: String| p@).take(i as int);
            assert(now.drop_last() =~= before);
            assert(now.last() == parts@[i - 1]@);
        }
    }
    proof {
        assert(parts@.map_values(|p: String| p@).take(parts@.len() as int) =~= parts@.map_values(
            |p: String| p@,
        ));
    }
    acc
}

} // verus!
