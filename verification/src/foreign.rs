//! The tagged model of interpreter-side values.
//!
//! The embedded interpreter is dynamically typed; the bridge never assumes a
//! foreign object's shape beyond documented accessors.  Every value that
//! crosses the boundary is therefore represented on the native side as a
//! closed tagged variant.  The unverified shell converts between this model
//! and live interpreter objects — holding the interpreter's exclusivity
//! lock while it does, as every touch of a live object must; the model
//! itself is plain data and free of that constraint.  Everything the
//! bridge decides about a boundary value is decided on this model.

use vstd::prelude::*;

verus! {

/// A value of the embedded interpreter, as modelled by the bridge.
///
/// An integer is carried as a sign and a 64-bit magnitude: the interpreter's
/// integers are unbounded, and this form covers every value whose magnitude
/// fits 64 bits, which is the whole range the codec can represent without
/// loss.  A floating-point value is carried opaquely as its 64-bit IEEE 754
/// bit pattern; the bridge never computes with it.
#[derive(Debug)]
pub enum ForeignValue {
    Nil,
    Bool(bool),
    Int { negative: bool, magnitude: u64 },
    Float(u64),
    Text(String),
    Bytes(Vec<u8>),
    List(Vec<ForeignValue>),
    Dict(Vec<(String, ForeignValue)>),
}

/// The mathematical shape of a [`ForeignValue`].
pub enum ForeignModel {
    Nil,
    Bool(bool),
    Int { negative: bool, magnitude: u64 },
    Float(u64),
    Text(Seq<char>),
    Bytes(Seq<u8>),
    List(Seq<ForeignModel>),
    Dict(Seq<(Seq<char>, ForeignModel)>),
}

/// The model of a foreign value: the same tree with sequences in place of
/// vectors and character sequences in place of strings.
pub open spec fn foreign_model(v: ForeignValue) -> ForeignModel
    decreases v,
{
    match v {
        ForeignValue::Nil => ForeignModel::Nil,
        ForeignValue::Bool(b) => ForeignModel::Bool(b),
        ForeignValue::Int { negative, magnitude } => ForeignModel::Int { negative, magnitude },
        ForeignValue::Float(bits) => ForeignModel::Float(bits),
        ForeignValue::Text(s) => ForeignModel::Text(s@),
        ForeignValue::Bytes(b) => ForeignModel::Bytes(b@),
        ForeignValue::List(items) => ForeignModel::List(foreign_models(items@)),
        ForeignValue::Dict(entries) => ForeignModel::Dict(dict_model(entries@)),
    }
}

/// The models of a sequence of foreign values, elementwise.
pub open spec fn foreign_models(items: Seq<ForeignValue>) -> Seq<ForeignModel>
    decreases items,
{
    if items.len() == 0 {
        Seq::empty()
    } else {
        seq![foreign_model(items[0])] + foreign_models(items.skip(1))
    }
}

/// The models of a sequence of dictionary entries, elementwise.
pub open spec fn dict_model(entries: Seq<(String, ForeignValue)>) -> Seq<
    (Seq<char>, ForeignModel),
>
    decreases entries,
{
    if entries.len() == 0 {
        Seq::empty()
    } else {
        seq![(entries[0].0@, foreign_model(entries[0].1))] + dict_model(entries.skip(1))
    }
}

/// `foreign_models` maps the model over the sequence elementwise.
pub proof fn lemma_foreign_models(items: Seq<ForeignValue>)
    ensures
        foreign_models(items).len() == items.len(),
        forall|i: int|
            0 <= i < items.len() ==> #[trigger] foreign_models(items)[i] == foreign_model(
                items[i],
            ),
    decreases items.len(),
{
    if items.len() > 0 {
        lemma_foreign_models(items.skip(1));
    }
}

/// `dict_model` maps the model over the entries elementwise.
pub proof fn lemma_dict_model(entries: Seq<(String, ForeignValue)>)
    ensures
        dict_model(entries).len() == entries.len(),
        forall|i: int|
            0 <= i < entries.len() ==> #[trigger] dict_model(entries)[i] == (
                entries[i].0@,
                foreign_model(entries[i].1),
            ),
    decreases entries.len(),
{
    if entries.len() > 0 {
        lemma_dict_model(entries.skip(1));
    }
}

impl View for ForeignValue {
    type V = ForeignModel;

    open spec fn view(&self) -> ForeignModel {
        foreign_model(*self)
    }
}

/// Looks `key` up in a dictionary's entry list, taking the first entry
/// whose key matches.
pub fn dict_get<'a>(entries: &'a Vec<(String, ForeignValue)>, key: &String) -> (r: Option<
    &'a ForeignValue,
>)
    ensures
        match r {
            Option::Some(v) => crate::assoc::assoc_lookup(dict_model(entries@), key@)
                == Option::Some(foreign_model(*v)),
            Option::None => crate::assoc::assoc_lookup(dict_model(entries@), key@) is None,
        },
{
    proof {
        lemma_dict_model(entries@);
    }
    let found = crate::assoc::find_key(entries, key);
    match found {
        Option::Some(i) => {
            proof {
                crate::assoc::lemma_assoc_lookup_first(dict_model(entries@), key@, i as int);
            }
            Option::Some(&entries[i].1)
        },
        Option::None => {
            proof {
                crate::assoc::lemma_assoc_lookup_none(dict_model(entries@), key@);
            }
            Option::None
        },
    }
}

} // verus!
