//! Self-registration of the bridge's own shared library.
//!
//! Dynamically loaded plugins are bound lazily and locally by default, so
//! symbols the bridge exports stay invisible to the interpreter's own
//! extension-loading machinery.  Before the first interpreter
//! initialization, the bridge therefore resolves its runtime library's
//! platform-specific filename and force-loads it with global, immediate
//! symbol binding.  The filename is formed here; the load itself — and the
//! platform constants — belong to the unverified shell, and a failure
//! there is fatal to node construction.  The lifecycle state machine
//! refuses to begin setup until the shell records that this step ran.

use vstd::prelude::*;
use vstd::string::StringExecFns;

verus! {

/// Forms a platform's shared-library filename: the platform's prefix, the
/// library's stem, the platform's suffix, in that order and nothing else.
pub fn shared_library_filename(prefix: &str, stem: &str, suffix: &str) -> (r: String)
    ensures
        r@ == prefix@ + stem@ + suffix@,
{
    String::from_str(prefix).concat(stem).concat(suffix)
}

} // verus!
