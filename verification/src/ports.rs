//! Port-keyed values and port capability handles.
//!
//! An Operator's iteration reads a set of per-port data messages and
//! produces a set of per-port byte payloads; both travel across the
//! boundary as dictionaries keyed by port identifier.  A port handle is a
//! non-owning capability over a transport endpoint owned by the runtime:
//! handles may be shared, and converting a handle back to an exclusive
//! native form fails cleanly while more than one capability is outstanding,
//! rather than risk aliasing.

use crate::assoc::assoc_lookup;
use crate::assoc::find_key;
use crate::assoc::lemma_assoc_lookup_first;
use crate::assoc::lemma_assoc_lookup_none;
use crate::error::BridgeError;
use crate::foreign::dict_model;
use crate::foreign::foreign_model;
use crate::foreign::lemma_dict_model;
use crate::foreign::ForeignModel;
use crate::foreign::ForeignValue;
use crate::message::copy_bytes;
use crate::message::DataMessage;
use crate::message::MessageModel;
use vstd::prelude::*;
use vstd::string::StringExecFns;

verus! {

/// The models of a sequence of port-keyed messages, elementwise.
pub open spec fn inputs_model(entries: Seq<(String, DataMessage)>) -> Seq<
    (Seq<char>, MessageModel),
>
    decreases entries,
{
    if entries.len() == 0 {
        Seq::empty()
    } else {
        seq![(entries[0].0@, entries[0].1@)] + inputs_model(entries.skip(1))
    }
}

/// `inputs_model` maps the model over the entries elementwise.
pub proof fn lemma_inputs_model(entries: Seq<(String, DataMessage)>)
    ensures
        inputs_model(entries).len() == entries.len(),
        forall|i: int|
            0 <= i < entries.len() ==> #[trigger] inputs_model(entries)[i] == (
                entries[i].0@,
                entries[i].1@,
            ),
    decreases entries.len(),
{
    if entries.len() > 0 {
        lemma_inputs_model(entries.skip(1));
    }
}

/// The per-port data messages handed to an Operator's run.
pub struct Inputs {
    /// The messages, keyed by port identifier.
    pub inputs: Vec<(String, DataMessage)>,
}

impl Inputs {
    /// Wraps a list of per-port messages.
    pub fn from_pairs(inputs: Vec<(String, DataMessage)>) -> (r: Inputs)
        ensures
            r.inputs@ == inputs@,
    {
        Inputs { inputs }
    }

    /// The message of the given port, taking the first entry whose key
    /// matches.
    pub fn get<'a>(&'a self, id: &String) -> (r: Option<&'a DataMessage>)
        ensures
            match r {
                Option::Some(m) => assoc_lookup(inputs_model(self.inputs@), id@) == Option::Some(
                    m@,
                ),
                Option::None => assoc_lookup(inputs_model(self.inputs@), id@) is None,
            },
    {
        proof {
            lemma_inputs_model(self.inputs@);
        }
        let found = find_key(&self.inputs, id);
        match found {
            Option::Some(i) => {
                proof {
                    lemma_assoc_lookup_first(inputs_model(self.inputs@), id@, i as int);
                }
                Option::Some(&self.inputs[i].1)
            },
            Option::None => {
                proof {
                    lemma_assoc_lookup_none(inputs_model(self.inputs@), id@);
                }
                Option::None
            },
        }
    }

    /// How many ports carry a message.
    pub fn len(&self) -> (r: usize)
        ensures
            r == self.inputs@.len(),
    {
        self.inputs.len()
    }
}

/// The models of a sequence of port-keyed payloads, elementwise.
pub open spec fn outputs_model(entries: Seq<(String, Vec<u8>)>) -> Seq<(Seq<char>, Seq<u8>)>
    decreases entries,
{
    if entries.len() == 0 {
        Seq::empty()
    } else {
        seq![(entries[0].0@, entries[0].1@)] + outputs_model(entries.skip(1))
    }
}

/// `outputs_model` maps the model over the entries elementwise.
pub proof fn lemma_outputs_model(entries: Seq<(String, Vec<u8>)>)
    ensures
        outputs_model(entries).len() == entries.len(),
        forall|i: int|
            0 <= i < entries.len() ==> #[trigger] outputs_model(entries)[i] == (
                entries[i].0@,
                entries[i].1@,
            ),
    decreases entries.len(),
{
    if entries.len() > 0 {
        lemma_outputs_model(entries.skip(1));
    }
}

/// Whether port keys are pairwise distinct.
pub open spec fn keys_unique(entries: Seq<(Seq<char>, Seq<u8>)>) -> bool {
    forall|i: int, j: int|
        0 <= i < j < entries.len() ==> (#[trigger] entries[i]).0 != (#[trigger] entries[j]).0
}

/// The per-port byte payloads an Operator's run produces.
pub struct Outputs {
    /// The payloads, keyed by port identifier.
    pub outputs: Vec<(String, Vec<u8>)>,
}

impl Outputs {
    /// Whether the port keys are pairwise distinct, as `put` keeps them.
    pub open spec fn wf(&self) -> bool {
        keys_unique(outputs_model(self.outputs@))
    }

    /// An empty set of outputs.
    pub fn new() -> (r: Outputs)
        ensures
            r.outputs@.len() == 0,
            r.wf(),
    {
        let r = Outputs { outputs: Vec::new() };
        proof {
            lemma_outputs_model(r.outputs@);
        }
        r
    }

    /// Binds `data` to the port `id`, replacing what the port carried
    /// before; every other port keeps its payload.
    pub fn put(&mut self, id: String, data: Vec<u8>)
        requires
            old(self).wf(),
        ensures
            final(self).wf(),
            assoc_lookup(outputs_model(final(self).outputs@), id@) == Option::Some(data@),
            forall|k: Seq<char>|
                k != id@ ==> #[trigger] assoc_lookup(outputs_model(final(self).outputs@), k)
                    == assoc_lookup(outputs_model(old(self).outputs@), k),
    {
        proof {
            lemma_outputs_model(self.outputs@);
        }
        let ghost before = outputs_model(self.outputs@);
        let found = find_key(&self.outputs, &id);
        match found {
            Option::Some(i) => {
                proof {
                    assert(before[i as int].0 == id@);
                }
                self.outputs.remove(i);
                proof {
                    lemma_outputs_model(self.outputs@);
                    let m = outputs_model(self.outputs@);
                    assert(m =~= before.remove(i as int));
                    assert(keys_unique(before));
                    assert forall|j: int| 0 <= j < m.len() implies (#[trigger] m[j]).0 != id@ by {
                        if j < i {
                            assert(m[j] == before[j]);
                            assert(before[j].0 != before[i as int].0);
                        } else {
                            assert(m[j] == before[j + 1]);
                            assert(before[j + 1].0 != before[i as int].0);
                        }
                    }
                    assert(mid_ok(before, m, id@));
                }
            },
            Option::None => {
                proof {
                    let m = outputs_model(self.outputs@);
                    assert forall|j: int| 0 <= j < m.len() implies (#[trigger] m[j]).0 != id@ by {
                        assert(m[j] == (self.outputs@[j].0@, self.outputs@[j].1@));
                    }
                    assert(mid_ok(before, m, id@));
                }
            },
        }
        let ghost mid = outputs_model(self.outputs@);
        self.outputs.push((id, data));
        proof {
            lemma_outputs_model(self.outputs@);
            let after = outputs_model(self.outputs@);
            assert(after =~= mid.push((id@, data@)));
            lemma_assoc_lookup_first(after, id@, after.len() - 1);
            assert forall|k: Seq<char>| k != id@ implies assoc_lookup(after, k) == assoc_lookup(
                before,
                k,
            ) by {
                lemma_lookup_unique_keys(before, mid, after, id@, data@, k);
            }
            lemma_unique_after_put(before, mid, after, id@, data@);
        }
    }

    /// The payload of the given port.
    pub fn get<'a>(&'a self, id: &String) -> (r: Option<&'a Vec<u8>>)
        ensures
            match r {
                Option::Some(d) => assoc_lookup(outputs_model(self.outputs@), id@) == Option::Some(
                    d@,
                ),
                Option::None => assoc_lookup(outputs_model(self.outputs@), id@) is None,
            },
    {
        proof {
            lemma_outputs_model(self.outputs@);
        }
        let found = find_key(&self.outputs, id);
        match found {
            Option::Some(i) => {
                proof {
                    lemma_assoc_lookup_first(outputs_model(self.outputs@), id@, i as int);
                }
                Option::Some(&self.outputs[i].1)
            },
            Option::None => {
                proof {
                    lemma_assoc_lookup_none(outputs_model(self.outputs@), id@);
                }
                Option::None
            },
        }
    }

    /// How many ports carry a payload.
    pub fn len(&self) -> (r: usize)
        ensures
            r == self.outputs@.len(),
    {
        self.outputs.len()
    }
}

/// How the entry list after a removal relates to the one before it: the
/// same list, or the list with the entry of the put key taken out, and in
/// either case no remaining entry carries the put key.
spec fn mid_ok(before: Seq<(Seq<char>, Seq<u8>)>, mid: Seq<(Seq<char>, Seq<u8>)>, id: Seq<char>) -> bool {
    &&& (mid == before || (exists|i: int|
        0 <= i < before.len() && (#[trigger] before[i]).0 == id && mid == before.remove(i)))
    &&& forall|j: int| 0 <= j < mid.len() ==> (#[trigger] mid[j]).0 != id
}

/// After a put, the port keys are still pairwise distinct.
proof fn lemma_unique_after_put(
    before: Seq<(Seq<char>, Seq<u8>)>,
    mid: Seq<(Seq<char>, Seq<u8>)>,
    after: Seq<(Seq<char>, Seq<u8>)>,
    id: Seq<char>,
    data: Seq<u8>,
)
    requires
        keys_unique(before),
        after == mid.push((id, data)),
        mid_ok(before, mid, id),
    ensures
        keys_unique(after),
{
    assert forall|x: int, y: int|
        0 <= x < y < after.len() implies (#[trigger] after[x]).0 != (#[trigger] after[y]).0 by {
        if y == after.len() - 1 {
            assert(after[y].0 == id);
            assert(after[x] == mid[x]);
        } else {
            assert(after[x] == mid[x]);
            assert(after[y] == mid[y]);
            if mid == before {
            } else {
                let i = choose|i: int|
                    0 <= i < before.len() && (#[trigger] before[i]).0 == id && mid == before.remove(
                        i,
                    );
                let x2 = if x < i { x } else { x + 1 };
                let y2 = if y < i { y } else { y + 1 };
                assert(mid[x] == before[x2]);
                assert(mid[y] == before[y2]);
                assert(before[x2].0 != before[y2].0);
            }
        }
    }
}

/// With every key distinct but one fresh entry appended, a lookup of any
/// other key passes through the append and the earlier removal unchanged.
proof fn lemma_lookup_unique_keys(
    before: Seq<(Seq<char>, Seq<u8>)>,
    mid: Seq<(Seq<char>, Seq<u8>)>,
    after: Seq<(Seq<char>, Seq<u8>)>,
    id: Seq<char>,
    data: Seq<u8>,
    k: Seq<char>,
)
    requires
        keys_unique(before),
        after == mid.push((id, data)),
        mid_ok(before, mid, id),
        k != id,
    ensures
        assoc_lookup(after, k) == assoc_lookup(before, k),
{
    if exists|m: int| 0 <= m < before.len() && (#[trigger] before[m]).0 == k {
        let m = choose|m: int| 0 <= m < before.len() && (#[trigger] before[m]).0 == k;
        assert forall|j: int| 0 <= j < m implies (#[trigger] before[j]).0 != k by {}
        lemma_assoc_lookup_first(before, k, m);
        if mid == before {
            lemma_assoc_lookup_first(after, k, m);
        } else {
            let i = choose|i: int|
                0 <= i < before.len() && (#[trigger] before[i]).0 == id && mid == before.remove(i);
            let m2 = if m < i {
                m
            } else {
                m - 1
            };
            assert(after[m2] == before[m]);
            assert forall|j: int| 0 <= j < m2 implies (#[trigger] after[j]).0 != k by {
                if j < i {
                    assert(after[j] == before[j]);
                } else {
                    assert(after[j] == before[j + 1]);
                }
            }
            lemma_assoc_lookup_first(after, k, m2);
        }
    } else {
        assert forall|j: int| 0 <= j < after.len() implies (#[trigger] after[j]).0 != k by {
            if j < after.len() - 1 {
                if mid == before {
                    assert(after[j] == before[j]);
                } else {
                    let i = choose|i: int|
                        0 <= i < before.len() && (#[trigger] before[i]).0 == id && mid
                            == before.remove(i);
                    if j < i {
                        assert(after[j] == before[j]);
                    } else {
                        assert(after[j] == before[j + 1]);
                    }
                }
            }
        }
        lemma_assoc_lookup_none(after, k);
        lemma_assoc_lookup_none(before, k);
    }
}

/// Reads a set of per-port payloads back from dictionary entries; nothing
/// if any value is not a bytes value.
pub open spec fn parse_outputs(entries: Seq<(Seq<char>, ForeignModel)>) -> Option<
    Seq<(Seq<char>, Seq<u8>)>,
>
    decreases entries,
{
    if entries.len() == 0 {
        Option::Some(Seq::empty())
    } else {
        match (entries[0].1, parse_outputs(entries.skip(1))) {
            (ForeignModel::Bytes(b), Option::Some(rest)) => Option::Some(
                seq![(entries[0].0, b)] + rest,
            ),
            _ => Option::None,
        }
    }
}

/// If every value is bytes, the entries parse elementwise.
pub proof fn lemma_parse_outputs_some(entries: Seq<(Seq<char>, ForeignModel)>)
    requires
        forall|i: int| 0 <= i < entries.len() ==> (#[trigger] entries[i]).1 is Bytes,
    ensures
        parse_outputs(entries) matches Option::Some(out) && out.len() == entries.len() && forall|
            i: int,
        |
            0 <= i < entries.len() ==> (#[trigger] out[i]).0 == entries[i].0
                && ForeignModel::Bytes(out[i].1) == entries[i].1,
    decreases entries.len(),
{
    if entries.len() > 0 {
        assert(entries[0].1 is Bytes);
        lemma_parse_outputs_some(entries.skip(1));
    }
}

/// If any value is not bytes, the entries fail to parse.
pub proof fn lemma_parse_outputs_none(entries: Seq<(Seq<char>, ForeignModel)>, i: int)
    requires
        0 <= i < entries.len(),
        !((entries[i]).1 is Bytes),
    ensures
        parse_outputs(entries) is None,
    decreases i,
{
    if i > 0 {
        lemma_parse_outputs_none(entries.skip(1), i - 1);
    }
}

/// Converts a set of per-port payloads into its interpreter-side
/// dictionary of bytes values.
pub fn outputs_to_foreign(o: &Outputs) -> (r: ForeignValue)
    ensures
        foreign_model(r) matches ForeignModel::Dict(en) && parse_outputs(en) == Option::Some(
            outputs_model(o.outputs@),
        ),
{
    let mut entries: Vec<(String, ForeignValue)> = Vec::new();
    let mut i: usize = 0;
    while i < o.outputs.len()
        invariant
            0 <= i <= o.outputs@.len(),
            entries@.len() == i,
            forall|j: int|
                0 <= j < i ==> (#[trigger] entries@[j]).0@ == o.outputs@[j].0@ && foreign_model(
                    entries@[j].1,
                ) == ForeignModel::Bytes(o.outputs@[j].1@),
        decreases o.outputs@.len() - i,
    {
        let key = o.outputs[i].0.clone();
        let data = copy_bytes(&o.outputs[i].1);
        entries.push((key, ForeignValue::Bytes(data)));
        i = i + 1;
    }
    proof {
        lemma_dict_model(entries@);
        lemma_outputs_model(o.outputs@);
        assert forall|j: int|
            0 <= j < dict_model(entries@).len() implies (#[trigger] dict_model(entries@)[j]).1
            is Bytes by {}
        lemma_parse_outputs_some(dict_model(entries@));
        let out = parse_outputs(dict_model(entries@))->Some_0;
        assert(out =~= outputs_model(o.outputs@));
    }
    ForeignValue::Dict(entries)
}

/// Rebuilds a set of per-port payloads from an interpreter-side value.
///
/// Succeeds exactly when the value is a dictionary every value of which is
/// a bytes value; anything else is an `InvalidData` error, as the foreign
/// side handed back something that is not a payload map.
pub fn outputs_from_foreign(f: &ForeignValue) -> (r: Result<Outputs, BridgeError>)
    ensures
        match r {
            Result::Ok(o) => foreign_model(*f) matches ForeignModel::Dict(en) && parse_outputs(en)
                == Option::Some(outputs_model(o.outputs@)),
            Result::Err(e) => {
                &&& e is InvalidData
                &&& match foreign_model(*f) {
                    ForeignModel::Dict(en) => parse_outputs(en) is None,
                    _ => true,
                }
            },
        },
{
    match f {
        ForeignValue::Dict(entries) => {
            let mut out: Vec<(String, Vec<u8>)> = Vec::new();
            let mut i: usize = 0;
            while i < entries.len()
                invariant
                    *f == ForeignValue::Dict(*entries),
                    0 <= i <= entries@.len(),
                    out@.len() == i,
                    forall|j: int|
                        0 <= j < i ==> (#[trigger] out@[j]).0@ == entries@[j].0@ && ForeignModel::Bytes(
                            out@[j].1@,
                        ) == foreign_model(entries@[j].1),
                decreases entries@.len() - i,
            {
                match &entries[i].1 {
                    ForeignValue::Bytes(b) => {
                        let key = entries[i].0.clone();
                        let data = copy_bytes(b);
                        out.push((key, data));
                    },
                    _ => {
                        proof {
                            lemma_dict_model(entries@);
                            assert(!((#[trigger] dict_model(entries@)[i as int]).1 is Bytes));
                            lemma_parse_outputs_none(dict_model(entries@), i as int);
                        }
                        return Result::Err(
                            BridgeError::InvalidData(
                                String::from_str("an output payload is not a bytes value"),
                            ),
                        );
                    },
                }
                i = i + 1;
            }
            proof {
                lemma_dict_model(entries@);
                lemma_outputs_model(out@);
                assert forall|j: int|
                    0 <= j < dict_model(entries@).len() implies (#[trigger] dict_model(
                    entries@,
                )[j]).1 is Bytes by {
                    assert(foreign_model(entries@[j].1) == ForeignModel::Bytes(out@[j].1@));
                }
                lemma_parse_outputs_some(dict_model(entries@));
                let parsed = parse_outputs(dict_model(entries@))->Some_0;
                assert(parsed =~= outputs_model(out@));
            }
            Result::Ok(Outputs { outputs: out })
        },
        _ => Result::Err(
            BridgeError::InvalidData(
                String::from_str("the foreign side handed back no payload dictionary"),
            ),
        ),
    }
}

/// A receiving capability over a transport endpoint.
///
/// The endpoint itself is owned by the transport; the handle only refers to
/// it.  `shares` mirrors the runtime's count of outstanding capabilities
/// over the same endpoint, as the handle observes it.
pub struct Input {
    /// The port this capability receives from.
    pub port_id: String,
    /// The outstanding capability count over the endpoint.
    pub shares: u64,
}

impl Input {
    /// A fresh, exclusive capability.
    pub fn new(port_id: String) -> (r: Input)
        ensures
            r.port_id@ == port_id@,
            r.shares == 1,
    {
        Input { port_id, shares: 1 }
    }

    /// The port identifier.
    pub fn port_id(&self) -> (r: &String)
        ensures
            r@ == self.port_id@,
    {
        &self.port_id
    }

    /// Records one more capability handed out over the endpoint.
    pub fn share(&mut self)
        requires
            old(self).shares < u64::MAX,
        ensures
            final(self).shares == old(self).shares + 1,
            final(self).port_id@ == old(self).port_id@,
    {
        self.shares = self.shares + 1;
    }

    /// Converts the capability back to an exclusive native form.
    ///
    /// Succeeds exactly when this is the only outstanding capability;
    /// while the endpoint is still shared the conversion fails cleanly
    /// with an `InvalidState` error rather than risk aliasing, and the
    /// handle is returned untouched.
    pub fn try_into_exclusive(self) -> (r: Result<Input, (Input, BridgeError)>)
        ensures
            match r {
                Result::Ok(h) => self.shares == 1 && h == self,
                Result::Err(p) => self.shares != 1 && p.0 == self && p.1 is InvalidState,
            },
    {
        if self.shares == 1 {
            Result::Ok(self)
        } else {
            Result::Err(
                (
                    self,
                    BridgeError::InvalidState(
                        String::from_str("the receive capability is still shared"),
                    ),
                ),
            )
        }
    }
}

/// A sending capability over a transport endpoint.
pub struct Output {
    /// The port this capability sends to.
    pub port_id: String,
    /// The outstanding capability count over the endpoint.
    pub shares: u64,
}

impl Output {
    /// A fresh, exclusive capability.
    pub fn new(port_id: String) -> (r: Output)
        ensures
            r.port_id@ == port_id@,
            r.shares == 1,
    {
        Output { port_id, shares: 1 }
    }

    /// The port identifier.
    pub fn port_id(&self) -> (r: &String)
        ensures
            r@ == self.port_id@,
    {
        &self.port_id
    }

    /// Records one more capability handed out over the endpoint.
    pub fn share(&mut self)
        requires
            old(self).shares < u64::MAX,
        ensures
            final(self).shares == old(self).shares + 1,
            final(self).port_id@ == old(self).port_id@,
    {
        self.shares = self.shares + 1;
    }
}

/// The receiving capabilities a node is constructed with, keyed by port.
pub struct InputHandles {
    /// The capabilities, keyed by port identifier.
    pub handles: Vec<(String, Input)>,
}

impl InputHandles {
    /// Wraps a list of per-port capabilities.
    pub fn from_pairs(handles: Vec<(String, Input)>) -> (r: InputHandles)
        ensures
            r.handles@ == handles@,
    {
        InputHandles { handles }
    }

    /// Takes the capability of the given port out of the set.
    ///
    /// A port identifier that no entry carries is exactly a `NotFound`
    /// error, and the set is left unchanged.
    pub fn take_raw(&mut self, port_id: &String) -> (r: Result<Input, BridgeError>)
        ensures
            match r {
                Result::Ok(h) => exists|i: int|
                    0 <= i < old(self).handles@.len() && (#[trigger] old(self).handles@[i]).0@
                        == port_id@ && old(self).handles@[i].1 == h && final(self).handles@ == old(
                        self,
                    ).handles@.remove(i),
                Result::Err(e) => {
                    &&& e is NotFound
                    &&& final(self).handles@ == old(self).handles@
                    &&& forall|i: int|
                        0 <= i < old(self).handles@.len() ==> (#[trigger] old(
                            self,
                        ).handles@[i]).0@ != port_id@
                },
            },
    {
        let found = find_key(&self.handles, port_id);
        match found {
            Option::Some(i) => {
                let entry = self.handles.remove(i);
                Result::Ok(entry.1)
            },
            Option::None => Result::Err(
                BridgeError::NotFound(
                    String::from_str("no receive capability is held for the given port"),
                ),
            ),
        }
    }

    /// How many capabilities the set holds.
    pub fn len(&self) -> (r: usize)
        ensures
            r == self.handles@.len(),
    {
        self.handles.len()
    }
}

/// The sending capabilities a node is constructed with, keyed by port.
pub struct OutputHandles {
    /// The capabilities, keyed by port identifier.
    pub handles: Vec<(String, Output)>,
}

impl OutputHandles {
    /// Wraps a list of per-port capabilities.
    pub fn from_pairs(handles: Vec<(String, Output)>) -> (r: OutputHandles)
        ensures
            r.handles@ == handles@,
    {
        OutputHandles { handles }
    }

    /// Takes the capability of the given port out of the set.
    ///
    /// A port identifier that no entry carries is exactly a `NotFound`
    /// error, and the set is left unchanged.
    pub fn take_raw(&mut self, port_id: &String) -> (r: Result<Output, BridgeError>)
        ensures
            match r {
                Result::Ok(h) => exists|i: int|
                    0 <= i < old(self).handles@.len() && (#[trigger] old(self).handles@[i]).0@
                        == port_id@ && old(self).handles@[i].1 == h && final(self).handles@ == old(
                        self,
                    ).handles@.remove(i),
                Result::Err(e) => {
                    &&& e is NotFound
                    &&& final(self).handles@ == old(self).handles@
                    &&& forall|i: int|
                        0 <= i < old(self).handles@.len() ==> (#[trigger] old(
                            self,
                        ).handles@[i]).0@ != port_id@
                },
            },
    {
        let found = find_key(&self.handles, port_id);
        match found {
            Option::Some(i) => {
                let entry = self.handles.remove(i);
                Result::Ok(entry.1)
            },
            Option::None => Result::Err(
                BridgeError::NotFound(
                    String::from_str("no send capability is held for the given port"),
                ),
            ),
        }
    }

    /// How many capabilities the set holds.
    pub fn len(&self) -> (r: usize)
        ensures
            r == self.handles@.len(),
    {
        self.handles.len()
    }
}

} // verus!
