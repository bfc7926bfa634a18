//! The configuration codec.
//!
//! A node's configuration is a recursive tree over null, booleans, numbers,
//! strings, arrays and keyed objects.  It is produced by the external
//! descriptor loader, converted once into the interpreter's representation
//! when the node is constructed, and discarded afterwards.  Conversion is
//! structurally lossless except for the numeric subtype coercion rules: a
//! foreign integral value is represented as a signed 64-bit value when it
//! fits, as an unsigned 64-bit value otherwise, and a value that fits
//! neither raises a `TypeConversion` error rather than silently losing
//! precision.  A foreign floating-point value keeps its exact bit pattern.

use crate::assoc::assoc_lookup;
use crate::assoc::find_key;
use crate::assoc::lemma_assoc_lookup_first;
use crate::assoc::lemma_assoc_lookup_none;
use crate::error::BridgeError;
use crate::foreign::dict_model;
use crate::foreign::foreign_model;
use crate::foreign::foreign_models;
use crate::foreign::lemma_dict_model;
use crate::foreign::lemma_foreign_models;
use crate::foreign::ForeignModel;
use crate::foreign::ForeignValue;
use vstd::prelude::*;
use vstd::string::StringExecFns;

verus! {

/// A configuration tree.
///
/// Numbers carry their subtype: `Int` for values of the signed 64-bit range,
/// `UInt` for unsigned values, `Float` for a 64-bit IEEE 754 bit pattern
/// that the codec carries through opaquely.
pub enum Configuration {
    Null,
    Bool(bool),
    Int(i64),
    UInt(u64),
    Float(u64),
    Text(String),
    List(Vec<Configuration>),
    Object(Vec<(String, Configuration)>),
}

/// The mathematical shape of a [`Configuration`].
pub enum ConfigModel {
    Null,
    Bool(bool),
    Int(i64),
    UInt(u64),
    Float(u64),
    Text(Seq<char>),
    List(Seq<ConfigModel>),
    Object(Seq<(Seq<char>, ConfigModel)>),
}

/// The model of a configuration tree: the same tree with sequences in place
/// of vectors and character sequences in place of strings.
pub open spec fn config_model(c: Configuration) -> ConfigModel
    decreases c,
{
    match c {
        Configuration::Null => ConfigModel::Null,
        Configuration::Bool(b) => ConfigModel::Bool(b),
        Configuration::Int(i) => ConfigModel::Int(i),
        Configuration::UInt(u) => ConfigModel::UInt(u),
        Configuration::Float(bits) => ConfigModel::Float(bits),
        Configuration::Text(s) => ConfigModel::Text(s@),
        Configuration::List(items) => ConfigModel::List(config_models(items@)),
        Configuration::Object(entries) => ConfigModel::Object(object_model(entries@)),
    }
}

/// The models of a sequence of configuration trees, elementwise.
pub open spec fn config_models(items: Seq<Configuration>) -> Seq<ConfigModel>
    decreases items,
{
    if items.len() == 0 {
        Seq::empty()
    } else {
        seq![config_model(items[0])] + config_models(items.skip(1))
    }
}

/// The models of a sequence of object entries, elementwise.
pub open spec fn object_model(entries: Seq<(String, Configuration)>) -> Seq<
    (Seq<char>, ConfigModel),
>
    decreases entries,
{
    if entries.len() == 0 {
        Seq::empty()
    } else {
        seq![(entries[0].0@, config_model(entries[0].1))] + object_model(entries.skip(1))
    }
}

/// `config_models` maps the model over the sequence elementwise.
pub proof fn lemma_config_models(items: Seq<Configuration>)
    ensures
        config_models(items).len() == items.len(),
        forall|i: int|
            0 <= i < items.len() ==> #[trigger] config_models(items)[i] == config_model(items[i]),
    decreases items.len(),
{
    if items.len() > 0 {
        lemma_config_models(items.skip(1));
    }
}

/// `object_model` maps the model over the entries elementwise.
pub proof fn lemma_object_model(entries: Seq<(String, Configuration)>)
    ensures
        object_model(entries).len() == entries.len(),
        forall|i: int|
            0 <= i < entries.len() ==> #[trigger] object_model(entries)[i] == (
                entries[i].0@,
                config_model(entries[i].1),
            ),
    decreases entries.len(),
{
    if entries.len() > 0 {
        lemma_object_model(entries.skip(1));
    }
}

impl View for Configuration {
    type V = ConfigModel;

    open spec fn view(&self) -> ConfigModel {
        config_model(*self)
    }
}

/// The magnitude of a signed 64-bit value, as an unsigned 64-bit value.
pub open spec fn magnitude_of(i: i64) -> u64 {
    if i >= 0 {
        i as u64
    } else {
        (-(i as int)) as u64
    }
}

/// The encoding of a configuration tree as a foreign value.
///
/// Arrays and objects recurse; an integral number becomes a foreign integer
/// carrying its sign and magnitude; a floating-point number carries its bit
/// pattern through unchanged.
pub open spec fn encode_model(c: ConfigModel) -> ForeignModel
    decreases c,
{
    match c {
        ConfigModel::Null => ForeignModel::Nil,
        ConfigModel::Bool(b) => ForeignModel::Bool(b),
        ConfigModel::Int(i) => ForeignModel::Int { negative: i < 0, magnitude: magnitude_of(i) },
        ConfigModel::UInt(u) => ForeignModel::Int { negative: false, magnitude: u },
        ConfigModel::Float(bits) => ForeignModel::Float(bits),
        ConfigModel::Text(s) => ForeignModel::Text(s),
        ConfigModel::List(items) => ForeignModel::List(encode_models(items)),
        ConfigModel::Object(entries) => ForeignModel::Dict(encode_object(entries)),
    }
}

/// The encodings of a sequence of configuration trees, elementwise.
pub open spec fn encode_models(items: Seq<ConfigModel>) -> Seq<ForeignModel>
    decreases items,
{
    if items.len() == 0 {
        Seq::empty()
    } else {
        seq![encode_model(items[0])] + encode_models(items.skip(1))
    }
}

/// The encodings of a sequence of object entries, elementwise.
pub open spec fn encode_object(entries: Seq<(Seq<char>, ConfigModel)>) -> Seq<
    (Seq<char>, ForeignModel),
>
    decreases entries,
{
    if entries.len() == 0 {
        Seq::empty()
    } else {
        seq![(entries[0].0, encode_model(entries[0].1))] + encode_object(entries.skip(1))
    }
}

/// The decoding of a foreign value as a configuration tree.
///
/// An integral foreign value is coerced to the signed subtype when it fits,
/// to the unsigned subtype otherwise; a negative value beyond the signed
/// 64-bit range fits no target numeric kind and fails, as do foreign kinds
/// that have no place in a configuration tree.
pub open spec fn decode_model(f: ForeignModel) -> Option<ConfigModel>
    decreases f,
{
    match f {
        ForeignModel::Nil => Option::Some(ConfigModel::Null),
        ForeignModel::Bool(b) => Option::Some(ConfigModel::Bool(b)),
        ForeignModel::Int { negative, magnitude } => if !negative {
            if magnitude <= i64::MAX as u64 {
                Option::Some(ConfigModel::Int(magnitude as i64))
            } else {
                Option::Some(ConfigModel::UInt(magnitude))
            }
        } else {
            if magnitude <= 0x8000_0000_0000_0000u64 {
                Option::Some(ConfigModel::Int((-(magnitude as int)) as i64))
            } else {
                Option::None
            }
        },
        ForeignModel::Float(bits) => Option::Some(ConfigModel::Float(bits)),
        ForeignModel::Text(s) => Option::Some(ConfigModel::Text(s)),
        ForeignModel::Bytes(_) => Option::None,
        ForeignModel::List(items) => match decode_models(items) {
            Option::Some(decoded) => Option::Some(ConfigModel::List(decoded)),
            Option::None => Option::None,
        },
        ForeignModel::Dict(entries) => match decode_object(entries) {
            Option::Some(decoded) => Option::Some(ConfigModel::Object(decoded)),
            Option::None => Option::None,
        },
    }
}

/// The decodings of a sequence of foreign values; nothing if any element
/// fails to decode.
pub open spec fn decode_models(items: Seq<ForeignModel>) -> Option<Seq<ConfigModel>>
    decreases items,
{
    if items.len() == 0 {
        Option::Some(Seq::empty())
    } else {
        match (decode_model(items[0]), decode_models(items.skip(1))) {
            (Option::Some(first), Option::Some(rest)) => Option::Some(seq![first] + rest),
            _ => Option::None,
        }
    }
}

/// The decodings of a sequence of dictionary entries; nothing if any value
/// fails to decode.
pub open spec fn decode_object(entries: Seq<(Seq<char>, ForeignModel)>) -> Option<
    Seq<(Seq<char>, ConfigModel)>,
>
    decreases entries,
{
    if entries.len() == 0 {
        Option::Some(Seq::empty())
    } else {
        match (decode_model(entries[0].1), decode_object(entries.skip(1))) {
            (Option::Some(first), Option::Some(rest)) => Option::Some(
                seq![(entries[0].0, first)] + rest,
            ),
            _ => Option::None,
        }
    }
}

/// The numeric-subtype normal form of a configuration tree: an unsigned
/// number that fits the signed range is written as signed, which is the
/// form the codec's round trip settles on.
pub open spec fn normalize(c: ConfigModel) -> ConfigModel
    decreases c,
{
    match c {
        ConfigModel::UInt(u) => if u <= i64::MAX as u64 {
            ConfigModel::Int(u as i64)
        } else {
            ConfigModel::UInt(u)
        },
        ConfigModel::List(items) => ConfigModel::List(normalize_models(items)),
        ConfigModel::Object(entries) => ConfigModel::Object(normalize_object(entries)),
        _ => c,
    }
}

/// The normal forms of a sequence of configuration trees, elementwise.
pub open spec fn normalize_models(items: Seq<ConfigModel>) -> Seq<ConfigModel>
    decreases items,
{
    if items.len() == 0 {
        Seq::empty()
    } else {
        seq![normalize(items[0])] + normalize_models(items.skip(1))
    }
}

/// The normal forms of a sequence of object entries, elementwise.
pub open spec fn normalize_object(entries: Seq<(Seq<char>, ConfigModel)>) -> Seq<
    (Seq<char>, ConfigModel),
>
    decreases entries,
{
    if entries.len() == 0 {
        Seq::empty()
    } else {
        seq![(entries[0].0, normalize(entries[0].1))] + normalize_object(entries.skip(1))
    }
}

/// Whether a configuration tree is in numeric-subtype normal form.
pub open spec fn is_normal(c: ConfigModel) -> bool
    decreases c,
{
    match c {
        ConfigModel::UInt(u) => u > i64::MAX as u64,
        ConfigModel::List(items) => all_normal(items),
        ConfigModel::Object(entries) => all_normal_object(entries),
        _ => true,
    }
}

/// Whether every tree of a sequence is in normal form.
pub open spec fn all_normal(items: Seq<ConfigModel>) -> bool
    decreases items,
{
    if items.len() == 0 {
        true
    } else {
        is_normal(items[0]) && all_normal(items.skip(1))
    }
}

/// Whether every entry value of a sequence is in normal form.
pub open spec fn all_normal_object(entries: Seq<(Seq<char>, ConfigModel)>) -> bool
    decreases entries,
{
    if entries.len() == 0 {
        true
    } else {
        is_normal(entries[0].1) && all_normal_object(entries.skip(1))
    }
}

/// Decoding an encoded configuration tree yields its numeric-subtype normal
/// form: the codec loses no structure and no value, and rewrites only an
/// unsigned number that fits the signed range into its signed form.
pub proof fn lemma_decode_encode(c: ConfigModel)
    ensures
        decode_model(encode_model(c)) == Option::Some(normalize(c)),
    decreases c,
{
    match c {
        ConfigModel::Int(i) => {
            if i < 0 {
                assert(magnitude_of(i) <= 0x8000_0000_0000_0000u64);
                assert((-(magnitude_of(i) as int)) as i64 == i);
            } else {
                assert(magnitude_of(i) <= i64::MAX as u64);
                assert(magnitude_of(i) as i64 == i);
            }
        },
        ConfigModel::List(items) => {
            lemma_decode_encode_models(items);
        },
        ConfigModel::Object(entries) => {
            lemma_decode_encode_object(entries);
        },
        _ => {},
    }
}

/// The sequence form of [`lemma_decode_encode`].
pub proof fn lemma_decode_encode_models(items: Seq<ConfigModel>)
    ensures
        decode_models(encode_models(items)) == Option::Some(normalize_models(items)),
    decreases items,
{
    if items.len() == 0 {
        assert(encode_models(items).len() == 0);
    } else {
        lemma_decode_encode(items[0]);
        lemma_decode_encode_models(items.skip(1));
        assert(encode_models(items).skip(1) =~= encode_models(items.skip(1)));
        assert(encode_models(items)[0] == encode_model(items[0]));
    }
}

/// The object form of [`lemma_decode_encode`].
pub proof fn lemma_decode_encode_object(entries: Seq<(Seq<char>, ConfigModel)>)
    ensures
        decode_object(encode_object(entries)) == Option::Some(normalize_object(entries)),
    decreases entries,
{
    if entries.len() == 0 {
        assert(encode_object(entries).len() == 0);
    } else {
        lemma_decode_encode(entries[0].1);
        lemma_decode_encode_object(entries.skip(1));
        assert(encode_object(entries).skip(1) =~= encode_object(entries.skip(1)));
        assert(encode_object(entries)[0] == (entries[0].0, encode_model(entries[0].1)));
    }
}

/// A tree in normal form is its own normal form, so for such trees the
/// codec's round trip is the identity.
pub proof fn lemma_normal_fixed(c: ConfigModel)
    requires
        is_normal(c),
    ensures
        normalize(c) == c,
    decreases c,
{
    match c {
        ConfigModel::List(items) => {
            lemma_normal_fixed_models(items);
            assert(normalize_models(items) =~= items);
        },
        ConfigModel::Object(entries) => {
            lemma_normal_fixed_object(entries);
            assert(normalize_object(entries) =~= entries);
        },
        _ => {},
    }
}

/// The sequence form of [`lemma_normal_fixed`].
pub proof fn lemma_normal_fixed_models(items: Seq<ConfigModel>)
    requires
        all_normal(items),
    ensures
        normalize_models(items) =~= items,
    decreases items,
{
    if items.len() > 0 {
        lemma_normal_fixed(items[0]);
        lemma_normal_fixed_models(items.skip(1));
    }
}

/// The object form of [`lemma_normal_fixed`].
pub proof fn lemma_normal_fixed_object(entries: Seq<(Seq<char>, ConfigModel)>)
    requires
        all_normal_object(entries),
    ensures
        normalize_object(entries) =~= entries,
    decreases entries,
{
    if entries.len() > 0 {
        lemma_normal_fixed(entries[0].1);
        lemma_normal_fixed_object(entries.skip(1));
    }
}

/// For every configuration tree in numeric-subtype normal form, decoding
/// its encoding gives the tree back unchanged.
pub proof fn lemma_codec_round_trip(c: ConfigModel)
    requires
        is_normal(c),
    ensures
        decode_model(encode_model(c)) == Option::Some(c),
{
    lemma_decode_encode(c);
    lemma_normal_fixed(c);
}

/// `encode_models` maps the encoding over the sequence elementwise.
pub proof fn lemma_encode_models(items: Seq<ConfigModel>)
    ensures
        encode_models(items).len() == items.len(),
        forall|i: int|
            0 <= i < items.len() ==> #[trigger] encode_models(items)[i] == encode_model(items[i]),
    decreases items.len(),
{
    if items.len() > 0 {
        lemma_encode_models(items.skip(1));
    }
}

/// `encode_object` maps the encoding over the entries elementwise.
pub proof fn lemma_encode_object(entries: Seq<(Seq<char>, ConfigModel)>)
    ensures
        encode_object(entries).len() == entries.len(),
        forall|i: int|
            0 <= i < entries.len() ==> #[trigger] encode_object(entries)[i] == (
                entries[i].0,
                encode_model(entries[i].1),
            ),
    decreases entries.len(),
{
    if entries.len() > 0 {
        lemma_encode_object(entries.skip(1));
    }
}

/// If every element of a sequence decodes, the sequence decodes to the
/// elementwise decodings.
pub proof fn lemma_decode_models_some(items: Seq<ForeignModel>)
    requires
        forall|i: int| 0 <= i < items.len() ==> decode_model(#[trigger] items[i]) is Some,
    ensures
        decode_models(items) matches Option::Some(ds) && ds.len() == items.len() && forall|i: int|
            0 <= i < items.len() ==> Option::Some(#[trigger] ds[i]) == decode_model(items[i]),
    decreases items.len(),
{
    if items.len() > 0 {
        assert(decode_model(items[0]) is Some);
        lemma_decode_models_some(items.skip(1));
    }
}

/// If any element of a sequence fails to decode, the sequence fails.
pub proof fn lemma_decode_models_none(items: Seq<ForeignModel>, i: int)
    requires
        0 <= i < items.len(),
        decode_model(items[i]) is None,
    ensures
        decode_models(items) is None,
    decreases i,
{
    if i > 0 {
        lemma_decode_models_none(items.skip(1), i - 1);
    }
}

/// If every entry value of a dictionary decodes, the dictionary decodes to
/// the elementwise decodings under the same keys.
pub proof fn lemma_decode_object_some(entries: Seq<(Seq<char>, ForeignModel)>)
    requires
        forall|i: int| 0 <= i < entries.len() ==> decode_model((#[trigger] entries[i]).1) is Some,
    ensures
        decode_object(entries) matches Option::Some(ds) && ds.len() == entries.len() && forall|
            i: int,
        |
            0 <= i < entries.len() ==> (#[trigger] ds[i]).0 == entries[i].0 && Option::Some(
                ds[i].1,
            ) == decode_model(entries[i].1),
    decreases entries.len(),
{
    if entries.len() > 0 {
        assert(decode_model(entries[0].1) is Some);
        lemma_decode_object_some(entries.skip(1));
    }
}

/// If any entry value of a dictionary fails to decode, the dictionary fails.
pub proof fn lemma_decode_object_none(entries: Seq<(Seq<char>, ForeignModel)>, i: int)
    requires
        0 <= i < entries.len(),
        decode_model(entries[i].1) is None,
    ensures
        decode_object(entries) is None,
    decreases i,
{
    if i > 0 {
        lemma_decode_object_none(entries.skip(1), i - 1);
    }
}

/// Converts a configuration tree into its interpreter-side value.
///
/// Arrays and objects recurse without any depth limit beyond the host
/// stack; numbers carry sign and magnitude; text and the bit patterns of
/// floating-point numbers cross unchanged.
pub fn encode(c: &Configuration) -> (r: ForeignValue)
    ensures
        foreign_model(r) == encode_model(config_model(*c)),
    decreases *c,
{
    match c {
        Configuration::Null => ForeignValue::Nil,
        Configuration::Bool(b) => ForeignValue::Bool(*b),
        Configuration::Int(i) => {
            let value: i64 = *i;
            if value >= 0 {
                ForeignValue::Int { negative: false, magnitude: value as u64 }
            } else {
                ForeignValue::Int { negative: true, magnitude: (-(value as i128)) as u64 }
            }
        },
        Configuration::UInt(u) => ForeignValue::Int { negative: false, magnitude: *u },
        Configuration::Float(bits) => ForeignValue::Float(*bits),
        Configuration::Text(s) => ForeignValue::Text(s.clone()),
        Configuration::List(items) => {
            let mut out: Vec<ForeignValue> = Vec::new();
            let mut i: usize = 0;
            while i < items.len()
                invariant
                    *c == Configuration::List(*items),
                    0 <= i <= items@.len(),
                    out@.len() == i,
                    forall|j: int|
                        0 <= j < i ==> foreign_model(#[trigger] out@[j]) == encode_model(
                            config_model(items@[j]),
                        ),
                decreases items@.len() - i,
            {
                proof {
                    assert(decreases_to!(*c => c->List_0));
                    assert(c->List_0 == *items);
                    assert(decreases_to!(*items => items@));
                    assert(decreases_to!(items@ => items@[i as int]));
                }
                let fv = encode(&items[i]);
                out.push(fv);
                i = i + 1;
            }
            proof {
                lemma_foreign_models(out@);
                lemma_config_models(items@);
                lemma_encode_models(config_models(items@));
                assert(foreign_models(out@) =~= encode_models(config_models(items@)));
            }
            ForeignValue::List(out)
        },
        Configuration::Object(entries) => {
            let mut out: Vec<(String, ForeignValue)> = Vec::new();
            let mut i: usize = 0;
            while i < entries.len()
                invariant
                    *c == Configuration::Object(*entries),
                    0 <= i <= entries@.len(),
                    out@.len() == i,
                    forall|j: int|
                        0 <= j < i ==> (#[trigger] out@[j]).0@ == entries@[j].0@ && foreign_model(
                            out@[j].1,
                        ) == encode_model(config_model(entries@[j].1)),
                decreases entries@.len() - i,
            {
                proof {
                    assert(decreases_to!(*c => c->Object_0));
                    assert(c->Object_0 == *entries);
                    assert(decreases_to!(*entries => entries@));
                    assert(decreases_to!(entries@ => entries@[i as int]));
                    assert(decreases_to!(entries@[i as int] => entries@[i as int].1));
                }
                let fv = encode(&entries[i].1);
                let key = entries[i].0.clone();
                out.push((key, fv));
                i = i + 1;
            }
            proof {
                lemma_dict_model(out@);
                lemma_object_model(entries@);
                lemma_encode_object(object_model(entries@));
                assert(dict_model(out@) =~= encode_object(object_model(entries@)));
            }
            ForeignValue::Dict(out)
        },
    }
}

/// Converts an interpreter-side value into a configuration tree.
///
/// The numeric coercion attempts the signed 64-bit form first, the unsigned
/// form next, and fails with `TypeConversion` when the value fits neither;
/// it never silently truncates.  Foreign kinds that have no configuration
/// counterpart fail the same way.
pub fn decode(f: &ForeignValue) -> (r: Result<Configuration, BridgeError>)
    ensures
        match r {
            Result::Ok(c) => decode_model(foreign_model(*f)) == Option::Some(config_model(c)),
            Result::Err(e) => decode_model(foreign_model(*f)) is None && e is TypeConversion,
        },
    decreases *f,
{
    match f {
        ForeignValue::Nil => Result::Ok(Configuration::Null),
        ForeignValue::Bool(b) => Result::Ok(Configuration::Bool(*b)),
        ForeignValue::Int { negative, magnitude } => {
            let mag: u64 = *magnitude;
            if !*negative {
                if mag <= 0x7fff_ffff_ffff_ffffu64 {
                    Result::Ok(Configuration::Int(mag as i64))
                } else {
                    Result::Ok(Configuration::UInt(mag))
                }
            } else {
                if mag <= 0x8000_0000_0000_0000u64 {
                    Result::Ok(Configuration::Int((-(mag as i128)) as i64))
                } else {
                    Result::Err(
                        BridgeError::TypeConversion(
                            String::from_str(
                                "numeric value fits no configuration number kind",
                            ),
                        ),
                    )
                }
            }
        },
        ForeignValue::Float(bits) => Result::Ok(Configuration::Float(*bits)),
        ForeignValue::Text(s) => Result::Ok(Configuration::Text(s.clone())),
        ForeignValue::Bytes(_) => Result::Err(
            BridgeError::TypeConversion(
                String::from_str("a bytes value has no configuration representation"),
            ),
        ),
        ForeignValue::List(items) => {
            let mut out: Vec<Configuration> = Vec::new();
            let mut i: usize = 0;
            while i < items.len()
                invariant
                    *f == ForeignValue::List(*items),
                    0 <= i <= items@.len(),
                    out@.len() == i,
                    forall|j: int|
                        0 <= j < i ==> decode_model(foreign_model(items@[j])) == Option::Some(
                            config_model(#[trigger] out@[j]),
                        ),
                decreases items@.len() - i,
            {
                proof {
                    assert(decreases_to!(*f => f->List_0));
                    assert(f->List_0 == *items);
                    assert(decreases_to!(*items => items@));
                    assert(decreases_to!(items@ => items@[i as int]));
                }
                let d = decode(&items[i]);
                match d {
                    Result::Ok(c) => {
                        out.push(c);
                    },
                    Result::Err(e) => {
                        proof {
                            lemma_foreign_models(items@);
                            assert(decode_model(foreign_models(items@)[i as int]) is None);
                            lemma_decode_models_none(foreign_models(items@), i as int);
                            assert(foreign_model(*f) == ForeignModel::List(
                                foreign_models(items@),
                            ));
                        }
                        return Result::Err(e);
                    },
                }
                i = i + 1;
            }
            proof {
                lemma_foreign_models(items@);
                assert forall|j: int|
                    0 <= j < foreign_models(items@).len() implies decode_model(
                    #[trigger] foreign_models(items@)[j],
                ) is Some by {
                    assert(decode_model(foreign_model(items@[j])) == Option::Some(
                        config_model(out@[j]),
                    ));
                };
                lemma_decode_models_some(foreign_models(items@));
                lemma_config_models(out@);
                let ds = decode_models(foreign_models(items@))->Some_0;
                assert(ds =~= config_models(out@));
            }
            Result::Ok(Configuration::List(out))
        },
        ForeignValue::Dict(entries) => {
            let mut out: Vec<(String, Configuration)> = Vec::new();
            let mut i: usize = 0;
            while i < entries.len()
                invariant
                    *f == ForeignValue::Dict(*entries),
                    0 <= i <= entries@.len(),
                    out@.len() == i,
                    forall|j: int|
                        0 <= j < i ==> (#[trigger] out@[j]).0@ == entries@[j].0@ && decode_model(
                            foreign_model(entries@[j].1),
                        ) == Option::Some(config_model(out@[j].1)),
                decreases entries@.len() - i,
            {
                proof {
                    assert(decreases_to!(*f => f->Dict_0));
                    assert(f->Dict_0 == *entries);
                    assert(decreases_to!(*entries => entries@));
                    assert(decreases_to!(entries@ => entries@[i as int]));
                    assert(decreases_to!(entries@[i as int] => entries@[i as int].1));
                }
                let d = decode(&entries[i].1);
                match d {
                    Result::Ok(c) => {
                        let key = entries[i].0.clone();
                        out.push((key, c));
                    },
                    Result::Err(e) => {
                        proof {
                            lemma_dict_model(entries@);
                            assert(decode_model(dict_model(entries@)[i as int].1) is None);
                            lemma_decode_object_none(dict_model(entries@), i as int);
                            assert(foreign_model(*f) == ForeignModel::Dict(dict_model(entries@)));
                        }
                        return Result::Err(e);
                    },
                }
                i = i + 1;
            }
            proof {
                lemma_dict_model(entries@);
                assert forall|j: int|
                    0 <= j < dict_model(entries@).len() implies decode_model(
                    (#[trigger] dict_model(entries@)[j]).1,
                ) is Some by {
                    assert(decode_model(foreign_model(entries@[j].1)) == Option::Some(
                        config_model(out@[j].1),
                    ));
                };
                lemma_decode_object_some(dict_model(entries@));
                lemma_object_model(out@);
                let ds = decode_object(dict_model(entries@))->Some_0;
                assert(ds =~= object_model(out@));
            }
            Result::Ok(Configuration::Object(out))
        },
    }
}

/// Looks `key` up among an object's entries, taking the first entry whose
/// key matches.
pub fn object_get<'a>(entries: &'a Vec<(String, Configuration)>, key: &String) -> (r: Option<
    &'a Configuration,
>)
    ensures
        match r {
            Option::Some(v) => assoc_lookup(object_model(entries@), key@) == Option::Some(
                config_model(*v),
            ),
            Option::None => assoc_lookup(object_model(entries@), key@) is None,
        },
{
    proof {
        lemma_object_model(entries@);
    }
    let found = find_key(entries, key);
    match found {
        Option::Some(i) => {
            proof {
                lemma_assoc_lookup_first(object_model(entries@), key@, i as int);
            }
            Option::Some(&entries[i].1)
        },
        Option::None => {
            proof {
                lemma_assoc_lookup_none(object_model(entries@), key@);
            }
            Option::None
        },
    }
}

/// Whether a configuration names a script to load: it is an object and its
/// reserved script-path entry holds text.
pub open spec fn names_script(c: ConfigModel) -> bool {
    c matches ConfigModel::Object(entries) && assoc_lookup(entries, "python-script"@) matches Option::Some(ConfigModel::Text(_))
}

/// The user's own configuration inside a node configuration: the value of
/// the reserved nested-configuration entry, or null when there is none.
pub open spec fn user_configuration_of(entries: Seq<(Seq<char>, ConfigModel)>) -> ConfigModel {
    match assoc_lookup(entries, "configuration"@) {
        Option::Some(v) => v,
        Option::None => ConfigModel::Null,
    }
}

/// Splits a node configuration into the script path to load and the
/// configuration that is forwarded to the user's initializer.
///
/// Two keys of the incoming object are reserved: one names the script file,
/// one holds the user's nested configuration.  Only the nested configuration
/// is handed onward, so neither reserved key leaks into the user's
/// initializer; a configuration that is not an object, or whose script
/// entry is missing or not text, is rejected as `InvalidState` and no node
/// is constructed from it.
pub fn node_configuration(config: Configuration) -> (r: Result<
    (String, Configuration),
    BridgeError,
>)
    ensures
        match r {
            Result::Ok(pair) => {
                &&& names_script(config_model(config))
                &&& config_model(config) matches ConfigModel::Object(entries) && assoc_lookup(
                    entries,
                    "python-script"@,
                ) == Option::Some(ConfigModel::Text(pair.0@)) && config_model(pair.1)
                    == user_configuration_of(entries)
            },
            Result::Err(e) => {
                &&& e is InvalidState
                &&& !names_script(config_model(config))
            },
        },
{
    let script_key = String::from_str("python-script");
    let nested_key = String::from_str("configuration");
    match config {
        Configuration::Object(mut entries) => {
            proof {
                lemma_object_model(entries@);
            }
            let path: String;
            let found_script = find_key(&entries, &script_key);
            match found_script {
                Option::Some(i) => {
                    proof {
                        lemma_assoc_lookup_first(object_model(entries@), script_key@, i as int);
                    }
                    match &entries[i].1 {
                        Configuration::Text(s) => {
                            path = s.clone();
                        },
                        _ => {
                            return Result::Err(
                                BridgeError::InvalidState(
                                    String::from_str(
                                        "reserved script entry of the configuration is not text",
                                    ),
                                ),
                            );
                        },
                    }
                },
                Option::None => {
                    proof {
                        lemma_assoc_lookup_none(object_model(entries@), script_key@);
                    }
                    return Result::Err(
                        BridgeError::InvalidState(
                            String::from_str("configuration names no script to load"),
                        ),
                    );
                },
            }
            let found_nested = find_key(&entries, &nested_key);
            match found_nested {
                Option::Some(j) => {
                    proof {
                        lemma_assoc_lookup_first(object_model(entries@), nested_key@, j as int);
                    }
                    let entry = entries.remove(j);
                    Result::Ok((path, entry.1))
                },
                Option::None => {
                    proof {
                        lemma_assoc_lookup_none(object_model(entries@), nested_key@);
                    }
                    Result::Ok((path, Configuration::Null))
                },
            }
        },
        _ => Result::Err(
            BridgeError::InvalidState(String::from_str("configuration is not an object")),
        ),
    }
}

} // verus!

