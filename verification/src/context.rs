//! The per-node identity record.
//!
//! A context is created once per node and read-only across its lifetime:
//! it names the runtime, the dataflow, the instance, the node, and the
//! execution mode, and is passed by reference into every callback.  It
//! crosses into the interpreter as a dictionary of its fields.

use crate::foreign::dict_model;
use crate::foreign::foreign_model;
use crate::foreign::lemma_dict_model;
use crate::foreign::ForeignModel;
use crate::foreign::ForeignValue;
use vstd::prelude::*;
use vstd::string::StringExecFns;

verus! {

/// The immutable identity of a node.
pub struct Context {
    /// The name of the hosting runtime.
    pub runtime_name: String,
    /// The identifier of the hosting runtime.
    pub runtime_id: String,
    /// The name of the dataflow the node belongs to.
    pub flow_name: String,
    /// The identifier of the running dataflow instance.
    pub instance_id: String,
    /// The identifier of the node itself.
    pub node_id: String,
    /// The execution mode of the node.
    pub mode: usize,
}

impl Context {
    /// The execution mode.
    pub fn mode(&self) -> (r: usize)
        ensures
            r == self.mode,
    {
        self.mode
    }

    /// The dataflow name.
    pub fn data_flow_name(&self) -> (r: &String)
        ensures
            r@ == self.flow_name@,
    {
        &self.flow_name
    }

    /// The dataflow instance identifier.
    pub fn data_flow_instance_id(&self) -> (r: &String)
        ensures
            r@ == self.instance_id@,
    {
        &self.instance_id
    }

    /// The runtime identifier.
    pub fn runtime_id(&self) -> (r: &String)
        ensures
            r@ == self.runtime_id@,
    {
        &self.runtime_id
    }

    /// The node identifier.
    pub fn node_id(&self) -> (r: &String)
        ensures
            r@ == self.node_id@,
    {
        &self.node_id
    }
}

/// The dictionary form of a context on the interpreter side.
pub open spec fn context_foreign(c: Context) -> ForeignModel {
    ForeignModel::Dict(
        seq![
            ("runtime_name"@, ForeignModel::Text(c.runtime_name@)),
            ("runtime_id"@, ForeignModel::Text(c.runtime_id@)),
            ("flow_name"@, ForeignModel::Text(c.flow_name@)),
            ("instance_id"@, ForeignModel::Text(c.instance_id@)),
            ("node_id"@, ForeignModel::Text(c.node_id@)),
            (
                "mode"@,
                ForeignModel::Int { negative: false, magnitude: c.mode as u64 },
            ),
        ],
    )
}

/// Converts a context into its interpreter-side dictionary.
pub fn context_to_foreign(c: &Context) -> (r: ForeignValue)
    ensures
        foreign_model(r) == context_foreign(*c),
{
    let mut entries: Vec<(String, ForeignValue)> = Vec::new();
    entries.push((String::from_str("runtime_name"), ForeignValue::Text(c.runtime_name.clone())));
    entries.push((String::from_str("runtime_id"), ForeignValue::Text(c.runtime_id.clone())));
    entries.push((String::from_str("flow_name"), ForeignValue::Text(c.flow_name.clone())));
    entries.push((String::from_str("instance_id"), ForeignValue::Text(c.instance_id.clone())));
    entries.push((String::from_str("node_id"), ForeignValue::Text(c.node_id.clone())));
    entries.push(
        (
            String::from_str("mode"),
            ForeignValue::Int { negative: false, magnitude: c.mode as u64 },
        ),
    );
    proof {
        lemma_dict_model(entries@);
        assert(dict_model(entries@) =~= context_foreign(*c)->Dict_0);
    }
    ForeignValue::Dict(entries)
}

} // verus!
