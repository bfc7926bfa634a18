//! The value marshaller for data messages.
//!
//! A data message carries a byte payload, a logical-clock timestamp, a
//! watermark flag and the end-to-end deadline misses recorded for it.  The
//! payload is copied, never shared, because the two runtimes manage memory
//! incompatibly; deadline-miss records are lossless structural copies.  A
//! message crosses into the interpreter as a dictionary of documented keys,
//! and is rebuilt from such a dictionary when it crosses back.

use crate::assoc::assoc_lookup;
use crate::assoc::lemma_assoc_lookup_first;
use crate::error::BridgeError;
use crate::foreign::dict_get;
use crate::foreign::dict_model;
use crate::foreign::foreign_model;
use crate::foreign::foreign_models;
use crate::foreign::lemma_dict_model;
use crate::foreign::lemma_foreign_models;
use crate::foreign::ForeignModel;
use crate::foreign::ForeignValue;
use crate::timestamp::valid_id_text;
use crate::timestamp::TimestampRepr;
use vstd::prelude::*;
use vstd::string::StringExecFns;

verus! {

/// Where an end-to-end deadline starts: a node and one of its outputs.
pub struct FromDescriptor {
    /// The producing node.
    pub node: String,
    /// The output port the deadline is measured from.
    pub output: String,
}

impl FromDescriptor {
    /// The node identifier.
    pub fn node(&self) -> (r: &String)
        ensures
            r@ == self.node@,
    {
        &self.node
    }

    /// The output port identifier.
    pub fn output(&self) -> (r: &String)
        ensures
            r@ == self.output@,
    {
        &self.output
    }
}

/// Where an end-to-end deadline ends: a node and one of its inputs.
pub struct ToDescriptor {
    /// The consuming node.
    pub node: String,
    /// The input port the deadline is measured to.
    pub input: String,
}

impl ToDescriptor {
    /// The node identifier.
    pub fn node(&self) -> (r: &String)
        ensures
            r@ == self.node@,
    {
        &self.node
    }

    /// The input port identifier.
    pub fn input(&self) -> (r: &String)
        ensures
            r@ == self.input@,
    {
        &self.input
    }
}

/// A missed end-to-end deadline: its two endpoints and the start and end
/// times observed.
pub struct E2EDeadlineMiss {
    /// The deadline's starting endpoint.
    pub from: FromDescriptor,
    /// The deadline's ending endpoint.
    pub to: ToDescriptor,
    /// The logical time the span started.
    pub start: u64,
    /// The logical time the span ended.
    pub end: u64,
}

/// The mathematical shape of an [`E2EDeadlineMiss`].
pub struct MissModel {
    pub from_node: Seq<char>,
    pub from_output: Seq<char>,
    pub to_node: Seq<char>,
    pub to_input: Seq<char>,
    pub start: u64,
    pub end: u64,
}

impl View for E2EDeadlineMiss {
    type V = MissModel;

    open spec fn view(&self) -> MissModel {
        MissModel {
            from_node: self.from.node@,
            from_output: self.from.output@,
            to_node: self.to.node@,
            to_input: self.to.input@,
            start: self.start,
            end: self.end,
        }
    }
}

impl E2EDeadlineMiss {
    /// Builds a record from its parts.
    pub fn new(from: FromDescriptor, to: ToDescriptor, start: u64, end: u64) -> (r:
        E2EDeadlineMiss)
        ensures
            r@ == (MissModel {
                from_node: from.node@,
                from_output: from.output@,
                to_node: to.node@,
                to_input: to.input@,
                start,
                end,
            }),
    {
        E2EDeadlineMiss { from, to, start, end }
    }

    /// The starting endpoint.
    pub fn from(&self) -> (r: &FromDescriptor)
        ensures
            r.node@ == self@.from_node,
            r.output@ == self@.from_output,
    {
        &self.from
    }

    /// The ending endpoint.
    pub fn to(&self) -> (r: &ToDescriptor)
        ensures
            r.node@ == self@.to_node,
            r.input@ == self@.to_input,
    {
        &self.to
    }

    /// The observed start time.
    pub fn start(&self) -> (r: u64)
        ensures
            r == self@.start,
    {
        self.start
    }

    /// The observed end time.
    pub fn end(&self) -> (r: u64)
        ensures
            r == self@.end,
    {
        self.end
    }

    /// Structural copy.
    pub fn duplicate(&self) -> (r: E2EDeadlineMiss)
        ensures
            r@ == self@,
    {
        E2EDeadlineMiss {
            from: FromDescriptor {
                node: self.from.node.clone(),
                output: self.from.output.clone(),
            },
            to: ToDescriptor { node: self.to.node.clone(), input: self.to.input.clone() },
            start: self.start,
            end: self.end,
        }
    }
}

/// A missed local deadline: the declared bound and the time a run actually
/// took, both in microseconds.
pub struct LocalDeadlineMiss {
    /// The declared bound.
    pub deadline: u128,
    /// The elapsed time that exceeded it.
    pub elapsed: u128,
}

impl LocalDeadlineMiss {
    /// Builds a record from its parts.
    pub fn from_parts(deadline: u128, elapsed: u128) -> (r: LocalDeadlineMiss)
        ensures
            r.deadline == deadline,
            r.elapsed == elapsed,
    {
        LocalDeadlineMiss { deadline, elapsed }
    }

    /// Builds a record from an optional pair of parts; absence reads as a
    /// zero bound and zero elapsed time.
    pub fn from_option(parts: Option<(u128, u128)>) -> (r: LocalDeadlineMiss)
        ensures
            match parts {
                Option::Some(p) => r.deadline == p.0 && r.elapsed == p.1,
                Option::None => r.deadline == 0 && r.elapsed == 0,
            },
    {
        match parts {
            Option::Some(p) => LocalDeadlineMiss { deadline: p.0, elapsed: p.1 },
            Option::None => LocalDeadlineMiss { deadline: 0, elapsed: 0 },
        }
    }

    /// The declared bound.
    pub fn deadline(&self) -> (r: u128)
        ensures
            r == self.deadline,
    {
        self.deadline
    }

    /// The elapsed time.
    pub fn elapsed(&self) -> (r: u128)
        ensures
            r == self.elapsed,
    {
        self.elapsed
    }
}

/// A data message.
pub struct DataMessage {
    /// The payload, materialized as bytes.
    pub data: Vec<u8>,
    /// The logical-clock timestamp of the message.
    pub ts: TimestampRepr,
    /// Whether the message is a watermark rather than data.
    pub is_watermark: bool,
    /// The end-to-end deadline misses recorded for the message.
    pub missed_end_to_end_deadlines: Vec<E2EDeadlineMiss>,
}

/// The mathematical shape of a [`DataMessage`].
pub struct MessageModel {
    pub data: Seq<u8>,
    pub time: u64,
    pub id: Seq<char>,
    pub watermark: bool,
    pub misses: Seq<MissModel>,
}

/// The models of a sequence of deadline misses, elementwise.
pub open spec fn misses_model(ms: Seq<E2EDeadlineMiss>) -> Seq<MissModel>
    decreases ms,
{
    if ms.len() == 0 {
        Seq::empty()
    } else {
        seq![ms[0]@] + misses_model(ms.skip(1))
    }
}

/// `misses_model` maps the model over the sequence elementwise.
pub proof fn lemma_misses_model(ms: Seq<E2EDeadlineMiss>)
    ensures
        misses_model(ms).len() == ms.len(),
        forall|i: int| 0 <= i < ms.len() ==> #[trigger] misses_model(ms)[i] == ms[i]@,
    decreases ms.len(),
{
    if ms.len() > 0 {
        lemma_misses_model(ms.skip(1));
    }
}

impl View for DataMessage {
    type V = MessageModel;

    open spec fn view(&self) -> MessageModel {
        MessageModel {
            data: self.data@,
            time: self.ts.time,
            id: self.ts.id@,
            watermark: self.is_watermark,
            misses: misses_model(self.missed_end_to_end_deadlines@),
        }
    }
}

impl DataMessage {
    /// Builds a message from its parts.
    pub fn new(
        data: Vec<u8>,
        ts: TimestampRepr,
        is_watermark: bool,
        missed_end_to_end_deadlines: Vec<E2EDeadlineMiss>,
    ) -> (r: DataMessage)
        ensures
            r@ == (MessageModel {
                data: data@,
                time: ts.time,
                id: ts.id@,
                watermark: is_watermark,
                misses: misses_model(missed_end_to_end_deadlines@),
            }),
    {
        DataMessage { data, ts, is_watermark, missed_end_to_end_deadlines }
    }

    /// The payload bytes.
    pub fn get_data(&self) -> (r: &Vec<u8>)
        ensures
            r@ == self@.data,
    {
        &self.data
    }

    /// The timestamp.
    pub fn get_ts(&self) -> (r: &TimestampRepr)
        ensures
            r.time == self@.time,
            r.id@ == self@.id,
    {
        &self.ts
    }

    /// Whether the message is a watermark.
    pub fn is_watermark(&self) -> (r: bool)
        ensures
            r == self@.watermark,
    {
        self.is_watermark
    }

    /// The recorded end-to-end deadline misses.
    pub fn missed_end_to_end_deadlines(&self) -> (r: &Vec<E2EDeadlineMiss>)
        ensures
            misses_model(r@) == self@.misses,
    {
        &self.missed_end_to_end_deadlines
    }

    /// The timestamp's canonical text rendering.
    pub fn timestamp(&self) -> (r: String)
        ensures
            r@ == crate::timestamp::dec_text(self@.time as nat) + "/"@ + self@.id,
    {
        self.ts.to_text()
    }
}

/// Copies a byte vector.
pub fn copy_bytes(v: &Vec<u8>) -> (r: Vec<u8>)
    ensures
        r@ == v@,
{
    let mut out: Vec<u8> = Vec::new();
    let mut i: usize = 0;
    while i < v.len()
        invariant
            0 <= i <= v@.len(),
            out@ =~= v@.subrange(0, i as int),
        decreases v@.len() - i,
    {
        out.push(v[i]);
        i = i + 1;
    }
    proof {
        assert(out@ =~= v@);
    }
    out
}

/// The dictionary form of a deadline-miss record on the interpreter side.
pub open spec fn miss_foreign(m: MissModel) -> ForeignModel {
    ForeignModel::Dict(
        seq![
            ("from_node"@, ForeignModel::Text(m.from_node)),
            ("from_output"@, ForeignModel::Text(m.from_output)),
            ("to_node"@, ForeignModel::Text(m.to_node)),
            ("to_input"@, ForeignModel::Text(m.to_input)),
            ("start"@, ForeignModel::Int { negative: false, magnitude: m.start }),
            ("end"@, ForeignModel::Int { negative: false, magnitude: m.end }),
        ],
    )
}

/// The dictionary forms of a sequence of deadline-miss records.
pub open spec fn misses_foreign(ms: Seq<MissModel>) -> Seq<ForeignModel>
    decreases ms,
{
    if ms.len() == 0 {
        Seq::empty()
    } else {
        seq![miss_foreign(ms[0])] + misses_foreign(ms.skip(1))
    }
}

/// `misses_foreign` maps the dictionary form over the sequence elementwise.
pub proof fn lemma_misses_foreign(ms: Seq<MissModel>)
    ensures
        misses_foreign(ms).len() == ms.len(),
        forall|i: int|
            0 <= i < ms.len() ==> #[trigger] misses_foreign(ms)[i] == miss_foreign(ms[i]),
    decreases ms.len(),
{
    if ms.len() > 0 {
        lemma_misses_foreign(ms.skip(1));
    }
}

/// The dictionary form of a data message on the interpreter side.
pub open spec fn message_foreign(m: MessageModel) -> ForeignModel {
    ForeignModel::Dict(
        seq![
            ("data"@, ForeignModel::Bytes(m.data)),
            ("time"@, ForeignModel::Int { negative: false, magnitude: m.time }),
            ("id"@, ForeignModel::Text(m.id)),
            ("is_watermark"@, ForeignModel::Bool(m.watermark)),
            ("missed_end_to_end_deadlines"@, ForeignModel::List(misses_foreign(m.misses))),
        ],
    )
}

/// Reads a deadline-miss record back from its dictionary form; nothing if
/// any field is missing or of the wrong kind.
pub open spec fn parse_miss(f: ForeignModel) -> Option<MissModel> {
    match f {
        ForeignModel::Dict(entries) => match (
            assoc_lookup(entries, "from_node"@),
            assoc_lookup(entries, "from_output"@),
            assoc_lookup(entries, "to_node"@),
            assoc_lookup(entries, "to_input"@),
            assoc_lookup(entries, "start"@),
            assoc_lookup(entries, "end"@),
        ) {
            (
                Option::Some(ForeignModel::Text(from_node)),
                Option::Some(ForeignModel::Text(from_output)),
                Option::Some(ForeignModel::Text(to_node)),
                Option::Some(ForeignModel::Text(to_input)),
                Option::Some(ForeignModel::Int { negative: false, magnitude: start }),
                Option::Some(ForeignModel::Int { negative: false, magnitude: end }),
            ) => Option::Some(
                MissModel { from_node, from_output, to_node, to_input, start, end },
            ),
            _ => Option::None,
        },
        _ => Option::None,
    }
}

/// Reads a sequence of deadline-miss records back; nothing if any element
/// fails.
pub open spec fn parse_misses(items: Seq<ForeignModel>) -> Option<Seq<MissModel>>
    decreases items,
{
    if items.len() == 0 {
        Option::Some(Seq::empty())
    } else {
        match (parse_miss(items[0]), parse_misses(items.skip(1))) {
            (Option::Some(first), Option::Some(rest)) => Option::Some(seq![first] + rest),
            _ => Option::None,
        }
    }
}

/// If every element parses, the sequence parses elementwise.
pub proof fn lemma_parse_misses_some(items: Seq<ForeignModel>)
    requires
        forall|i: int| 0 <= i < items.len() ==> parse_miss(#[trigger] items[i]) is Some,
    ensures
        parse_misses(items) matches Option::Some(ms) && ms.len() == items.len() && forall|i: int|
            0 <= i < items.len() ==> Option::Some(#[trigger] ms[i]) == parse_miss(items[i]),
    decreases items.len(),
{
    if items.len() > 0 {
        assert(parse_miss(items[0]) is Some);
        lemma_parse_misses_some(items.skip(1));
    }
}

/// If any element fails to parse, the sequence fails.
pub proof fn lemma_parse_misses_none(items: Seq<ForeignModel>, i: int)
    requires
        0 <= i < items.len(),
        parse_miss(items[i]) is None,
    ensures
        parse_misses(items) is None,
    decreases i,
{
    if i > 0 {
        lemma_parse_misses_none(items.skip(1), i - 1);
    }
}

/// Reads a data message back from its dictionary entries; nothing if a
/// field is missing or of the wrong kind, if the timestamp counter is
/// negative, or if the identifier text is invalid.
pub open spec fn parse_message_entries(entries: Seq<(Seq<char>, ForeignModel)>) -> Option<
    MessageModel,
> {
    match (
        assoc_lookup(entries, "data"@),
        assoc_lookup(entries, "time"@),
        assoc_lookup(entries, "id"@),
        assoc_lookup(entries, "is_watermark"@),
        assoc_lookup(entries, "missed_end_to_end_deadlines"@),
    ) {
        (
            Option::Some(ForeignModel::Bytes(data)),
            Option::Some(ForeignModel::Int { negative, magnitude }),
            Option::Some(ForeignModel::Text(id)),
            Option::Some(ForeignModel::Bool(watermark)),
            Option::Some(ForeignModel::List(ms)),
        ) => if !negative && valid_id_text(id) {
            match parse_misses(ms) {
                Option::Some(misses) => Option::Some(
                    MessageModel { data, time: magnitude, id, watermark, misses },
                ),
                Option::None => Option::None,
            }
        } else {
            Option::None
        },
        _ => Option::None,
    }
}

/// Reads a data message back from its dictionary form.
pub open spec fn parse_message(f: ForeignModel) -> Option<MessageModel> {
    match f {
        ForeignModel::Dict(entries) => parse_message_entries(entries),
        _ => Option::None,
    }
}

/// Whether dictionary entries carry a well-shaped message whose timestamp
/// alone is malformed: a negative counter or an invalid identifier text.
pub open spec fn message_stamp_malformed(entries: Seq<(Seq<char>, ForeignModel)>) -> bool {
    match (
        assoc_lookup(entries, "data"@),
        assoc_lookup(entries, "time"@),
        assoc_lookup(entries, "id"@),
        assoc_lookup(entries, "is_watermark"@),
        assoc_lookup(entries, "missed_end_to_end_deadlines"@),
    ) {
        (
            Option::Some(ForeignModel::Bytes(_)),
            Option::Some(ForeignModel::Int { negative, magnitude }),
            Option::Some(ForeignModel::Text(id)),
            Option::Some(ForeignModel::Bool(_)),
            Option::Some(ForeignModel::List(ms)),
        ) => parse_misses(ms) is Some && (negative || !valid_id_text(id)),
        _ => false,
    }
}

/// Converts a deadline-miss record into its interpreter-side dictionary.
pub fn miss_to_foreign(m: &E2EDeadlineMiss) -> (r: ForeignValue)
    ensures
        foreign_model(r) == miss_foreign(m@),
{
    let mut entries: Vec<(String, ForeignValue)> = Vec::new();
    entries.push(
        (String::from_str("from_node"), ForeignValue::Text(m.from.node.clone())),
    );
    entries.push(
        (String::from_str("from_output"), ForeignValue::Text(m.from.output.clone())),
    );
    entries.push((String::from_str("to_node"), ForeignValue::Text(m.to.node.clone())));
    entries.push((String::from_str("to_input"), ForeignValue::Text(m.to.input.clone())));
    entries.push(
        (String::from_str("start"), ForeignValue::Int { negative: false, magnitude: m.start }),
    );
    entries.push(
        (String::from_str("end"), ForeignValue::Int { negative: false, magnitude: m.end }),
    );
    proof {
        lemma_dict_model(entries@);
        assert(dict_model(entries@) =~= miss_foreign(m@)->Dict_0);
    }
    ForeignValue::Dict(entries)
}

/// Converts a data message into its interpreter-side dictionary.  The
/// payload is copied, never shared.
pub fn message_to_foreign(msg: &DataMessage) -> (r: ForeignValue)
    ensures
        foreign_model(r) == message_foreign(msg@),
{
    let mut misses: Vec<ForeignValue> = Vec::new();
    let mut i: usize = 0;
    let ms = &msg.missed_end_to_end_deadlines;
    while i < ms.len()
        invariant
            0 <= i <= ms@.len(),
            misses@.len() == i,
            forall|j: int|
                0 <= j < i ==> foreign_model(#[trigger] misses@[j]) == miss_foreign(ms@[j]@),
        decreases ms@.len() - i,
    {
        let fv = miss_to_foreign(&ms[i]);
        misses.push(fv);
        i = i + 1;
    }
    proof {
        lemma_foreign_models(misses@);
        lemma_misses_model(ms@);
        lemma_misses_foreign(misses_model(ms@));
        assert(foreign_models(misses@) =~= misses_foreign(misses_model(ms@)));
    }
    let mut entries: Vec<(String, ForeignValue)> = Vec::new();
    entries.push((String::from_str("data"), ForeignValue::Bytes(copy_bytes(&msg.data))));
    entries.push(
        (String::from_str("time"), ForeignValue::Int { negative: false, magnitude: msg.ts.time }),
    );
    entries.push((String::from_str("id"), ForeignValue::Text(msg.ts.id.clone())));
    entries.push((String::from_str("is_watermark"), ForeignValue::Bool(msg.is_watermark)));
    entries.push(
        (String::from_str("missed_end_to_end_deadlines"), ForeignValue::List(misses)),
    );
    proof {
        lemma_dict_model(entries@);
        assert(dict_model(entries@) =~= message_foreign(msg@)->Dict_0);
    }
    ForeignValue::Dict(entries)
}

/// Reads a deadline-miss record back from an interpreter-side value.
pub fn miss_from_foreign(f: &ForeignValue) -> (r: Option<E2EDeadlineMiss>)
    ensures
        match r {
            Option::Some(m) => parse_miss(foreign_model(*f)) == Option::Some(m@),
            Option::None => parse_miss(foreign_model(*f)) is None,
        },
{
    match f {
        ForeignValue::Dict(entries) => {
            let from_node: String;
            let from_output: String;
            let to_node: String;
            let to_input: String;
            let start: u64;
            let end: u64;
            match dict_get(entries, &String::from_str("from_node")) {
                Option::Some(ForeignValue::Text(s)) => {
                    from_node = s.clone();
                },
                _ => {
                    return Option::None;
                },
            }
            match dict_get(entries, &String::from_str("from_output")) {
                Option::Some(ForeignValue::Text(s)) => {
                    from_output = s.clone();
                },
                _ => {
                    return Option::None;
                },
            }
            match dict_get(entries, &String::from_str("to_node")) {
                Option::Some(ForeignValue::Text(s)) => {
                    to_node = s.clone();
                },
                _ => {
                    return Option::None;
                },
            }
            match dict_get(entries, &String::from_str("to_input")) {
                Option::Some(ForeignValue::Text(s)) => {
                    to_input = s.clone();
                },
                _ => {
                    return Option::None;
                },
            }
            match dict_get(entries, &String::from_str("start")) {
                Option::Some(ForeignValue::Int { negative: false, magnitude }) => {
                    start = *magnitude;
                },
                _ => {
                    return Option::None;
                },
            }
            match dict_get(entries, &String::from_str("end")) {
                Option::Some(ForeignValue::Int { negative: false, magnitude }) => {
                    end = *magnitude;
                },
                _ => {
                    return Option::None;
                },
            }
            Option::Some(
                E2EDeadlineMiss {
                    from: FromDescriptor { node: from_node, output: from_output },
                    to: ToDescriptor { node: to_node, input: to_input },
                    start,
                    end,
                },
            )
        },
        _ => Option::None,
    }
}

/// Rebuilds a data message from an interpreter-side value.
///
/// Succeeds exactly when the value is a dictionary carrying payload bytes,
/// a non-negative timestamp counter, a valid clock identifier, a watermark
/// flag, and a list of well-shaped deadline-miss records.  A malformed
/// timestamp on an otherwise well-shaped message is a `Deserialization`
/// error; every other malformation is a `TypeConversion` error.
pub fn message_from_foreign(f: &ForeignValue) -> (r: Result<DataMessage, BridgeError>)
    ensures
        match r {
            Result::Ok(m) => parse_message(foreign_model(*f)) == Option::Some(m@),
            Result::Err(e) => {
                &&& parse_message(foreign_model(*f)) is None
                &&& (e is Deserialization || e is TypeConversion)
                &&& (e is Deserialization <==> (foreign_model(*f) matches ForeignModel::Dict(en)
                    && message_stamp_malformed(en)))
            },
        },
{
    match f {
        ForeignValue::Dict(entries) => {
            let data: Vec<u8>;
            let time: u64;
            let negative: bool;
            let id: String;
            let watermark: bool;
            match dict_get(entries, &String::from_str("data")) {
                Option::Some(ForeignValue::Bytes(b)) => {
                    data = copy_bytes(b);
                },
                _ => {
                    return Result::Err(
                        BridgeError::TypeConversion(
                            String::from_str("data message carries no payload bytes"),
                        ),
                    );
                },
            }
            match dict_get(entries, &String::from_str("time")) {
                Option::Some(ForeignValue::Int { negative: n, magnitude }) => {
                    negative = *n;
                    time = *magnitude;
                },
                _ => {
                    return Result::Err(
                        BridgeError::TypeConversion(
                            String::from_str("data message carries no timestamp counter"),
                        ),
                    );
                },
            }
            match dict_get(entries, &String::from_str("id")) {
                Option::Some(ForeignValue::Text(s)) => {
                    id = s.clone();
                },
                _ => {
                    return Result::Err(
                        BridgeError::TypeConversion(
                            String::from_str("data message carries no clock identifier"),
                        ),
                    );
                },
            }
            match dict_get(entries, &String::from_str("is_watermark")) {
                Option::Some(ForeignValue::Bool(w)) => {
                    watermark = *w;
                },
                _ => {
                    return Result::Err(
                        BridgeError::TypeConversion(
                            String::from_str("data message carries no watermark flag"),
                        ),
                    );
                },
            }
            let items: &Vec<ForeignValue>;
            match dict_get(entries, &String::from_str("missed_end_to_end_deadlines")) {
                Option::Some(ForeignValue::List(ms)) => {
                    items = ms;
                },
                _ => {
                    return Result::Err(
                        BridgeError::TypeConversion(
                            String::from_str("data message carries no deadline-miss list"),
                        ),
                    );
                },
            }
            let mut misses: Vec<E2EDeadlineMiss> = Vec::new();
            let mut i: usize = 0;
            while i < items.len()
                invariant
                    *f == ForeignValue::Dict(*entries),
                    assoc_lookup(dict_model(entries@), "data"@) matches Option::Some(
                        ForeignModel::Bytes(_),
                    ),
                    assoc_lookup(dict_model(entries@), "time"@) matches Option::Some(
                        ForeignModel::Int { .. },
                    ),
                    assoc_lookup(dict_model(entries@), "id"@) matches Option::Some(
                        ForeignModel::Text(_),
                    ),
                    assoc_lookup(dict_model(entries@), "is_watermark"@) matches Option::Some(
                        ForeignModel::Bool(_),
                    ),
                    assoc_lookup(dict_model(entries@), "missed_end_to_end_deadlines"@)
                        == Option::Some(ForeignModel::List(foreign_models(items@))),
                    0 <= i <= items@.len(),
                    misses@.len() == i,
                    forall|j: int|
                        0 <= j < i ==> parse_miss(foreign_model(items@[j])) == Option::Some(
                            (#[trigger] misses@[j])@,
                        ),
                decreases items@.len() - i,
            {
                let parsed = miss_from_foreign(&items[i]);
                match parsed {
                    Option::Some(m) => {
                        misses.push(m);
                    },
                    Option::None => {
                        proof {
                            lemma_foreign_models(items@);
                            assert(parse_miss(foreign_models(items@)[i as int]) is None);
                            lemma_parse_misses_none(foreign_models(items@), i as int);
                        }
                        return Result::Err(
                            BridgeError::TypeConversion(
                                String::from_str(
                                    "data message carries a malformed deadline-miss record",
                                ),
                            ),
                        );
                    },
                }
                i = i + 1;
            }
            proof {
                lemma_foreign_models(items@);
                assert forall|j: int|
                    0 <= j < foreign_models(items@).len() implies parse_miss(
                    #[trigger] foreign_models(items@)[j],
                ) is Some by {
                    assert(parse_miss(foreign_model(items@[j])) == Option::Some(misses@[j]@));
                };
                lemma_parse_misses_some(foreign_models(items@));
                lemma_misses_model(misses@);
                let ms = parse_misses(foreign_models(items@))->Some_0;
                assert(ms =~= misses_model(misses@));
            }
            if negative {
                return Result::Err(
                    BridgeError::Deserialization(
                        String::from_str("data message timestamp counter is negative"),
                    ),
                );
            }
            if !crate::timestamp::check_id_text(id.as_str()) {
                return Result::Err(
                    BridgeError::Deserialization(
                        String::from_str("data message carries an invalid clock identifier"),
                    ),
                );
            }
            Result::Ok(
                DataMessage {
                    data,
                    ts: TimestampRepr { time, id },
                    is_watermark: watermark,
                    missed_end_to_end_deadlines: misses,
                },
            )
        },
        _ => Result::Err(
            BridgeError::TypeConversion(
                String::from_str("data message is not a dictionary value"),
            ),
        ),
    }
}

/// The six keys of a deadline-miss dictionary are pairwise distinct.
proof fn lemma_miss_keys_distinct()
    ensures
        "from_node"@ != "from_output"@,
        "from_node"@ != "to_node"@,
        "from_node"@ != "to_input"@,
        "from_node"@ != "start"@,
        "from_node"@ != "end"@,
        "from_output"@ != "to_node"@,
        "from_output"@ != "to_input"@,
        "from_output"@ != "start"@,
        "from_output"@ != "end"@,
        "to_node"@ != "to_input"@,
        "to_node"@ != "start"@,
        "to_node"@ != "end"@,
        "to_input"@ != "start"@,
        "to_input"@ != "end"@,
        "start"@ != "end"@,
{
    reveal_strlit("from_node");
    reveal_strlit("from_output");
    reveal_strlit("to_node");
    reveal_strlit("to_input");
    reveal_strlit("start");
    reveal_strlit("end");
    assert("from_node"@.len() == 9);
    assert("from_output"@.len() == 11);
    assert("to_node"@.len() == 7);
    assert("to_input"@.len() == 8);
    assert("start"@.len() == 5);
    assert("end"@.len() == 3);
}

/// Parsing the dictionary form of a deadline-miss record yields the record
/// back: the conversion is a lossless structural copy.
pub proof fn lemma_miss_round_trip(m: MissModel)
    ensures
        parse_miss(miss_foreign(m)) == Option::Some(m),
{
    lemma_miss_keys_distinct();
    let entries = miss_foreign(m)->Dict_0;
    lemma_assoc_lookup_first(entries, "from_node"@, 0);
    lemma_assoc_lookup_first(entries, "from_output"@, 1);
    lemma_assoc_lookup_first(entries, "to_node"@, 2);
    lemma_assoc_lookup_first(entries, "to_input"@, 3);
    lemma_assoc_lookup_first(entries, "start"@, 4);
    lemma_assoc_lookup_first(entries, "end"@, 5);
}

/// The sequence form of [`lemma_miss_round_trip`].
pub proof fn lemma_misses_round_trip(ms: Seq<MissModel>)
    ensures
        parse_misses(misses_foreign(ms)) == Option::Some(ms),
{
    lemma_misses_foreign(ms);
    assert forall|i: int|
        0 <= i < misses_foreign(ms).len() implies parse_miss(
        #[trigger] misses_foreign(ms)[i],
    ) is Some by {
        lemma_miss_round_trip(ms[i]);
    };
    lemma_parse_misses_some(misses_foreign(ms));
    let out = parse_misses(misses_foreign(ms))->Some_0;
    assert forall|i: int| 0 <= i < ms.len() implies #[trigger] out[i] == ms[i] by {
        lemma_miss_round_trip(ms[i]);
    };
    assert(out =~= ms);
}

/// The five keys of a data-message dictionary are pairwise distinct.
proof fn lemma_message_keys_distinct()
    ensures
        "data"@ != "time"@,
        "data"@ != "id"@,
        "data"@ != "is_watermark"@,
        "data"@ != "missed_end_to_end_deadlines"@,
        "time"@ != "id"@,
        "time"@ != "is_watermark"@,
        "time"@ != "missed_end_to_end_deadlines"@,
        "id"@ != "is_watermark"@,
        "id"@ != "missed_end_to_end_deadlines"@,
        "is_watermark"@ != "missed_end_to_end_deadlines"@,
{
    reveal_strlit("data");
    reveal_strlit("time");
    reveal_strlit("id");
    reveal_strlit("is_watermark");
    reveal_strlit("missed_end_to_end_deadlines");
    assert("data"@.len() == 4);
    assert("time"@.len() == 4);
    assert("id"@.len() == 2);
    assert("is_watermark"@.len() == 12);
    assert("missed_end_to_end_deadlines"@.len() == 27);
    assert("data"@[0] == 'd');
    assert("time"@[0] == 't');
}

/// Marshalling a data message into its dictionary form and reading it back
/// yields the message unchanged: the payload, the timestamp, the watermark
/// flag and every deadline-miss record round-trip exactly.
pub proof fn lemma_message_round_trip(m: MessageModel)
    requires
        valid_id_text(m.id),
    ensures
        parse_message(message_foreign(m)) == Option::Some(m),
{
    lemma_message_keys_distinct();
    let entries = message_foreign(m)->Dict_0;
    lemma_assoc_lookup_first(entries, "data"@, 0);
    lemma_assoc_lookup_first(entries, "time"@, 1);
    lemma_assoc_lookup_first(entries, "id"@, 2);
    lemma_assoc_lookup_first(entries, "is_watermark"@, 3);
    lemma_assoc_lookup_first(entries, "missed_end_to_end_deadlines"@, 4);
    lemma_misses_round_trip(m.misses);
}

/// A message as it arrives from a transport link: a payload that is either
/// already bytes or still typed, and the message's timestamp.
///
/// A typed payload must be serialised before it can cross the boundary;
/// the serialisation is performed by a native callback of the transport
/// layer, runs at most once, and its bytes are cached here for every later
/// access.
pub enum Payload {
    Bytes(Vec<u8>),
    Typed { cache: Option<Vec<u8>> },
}

/// A link message.
pub struct LinkMessage {
    /// The payload.
    pub payload: Payload,
    /// The message's timestamp.
    pub ts: TimestampRepr,
}

impl LinkMessage {
    /// Materializes a typed payload from the bytes the transport's
    /// serialiser produced.  The serialisation runs at most once: a
    /// payload that is already bytes, or already cached, is left exactly
    /// as it is and the argument is dropped.
    pub fn materialize(&mut self, serialised: Vec<u8>)
        ensures
            final(self).ts == old(self).ts,
            match old(self).payload {
                Payload::Typed { cache: Option::None } => final(self).payload == (Payload::Typed {
                    cache: Option::Some(serialised),
                }),
                _ => final(self).payload == old(self).payload,
            },
    {
        match &mut self.payload {
            Payload::Typed { cache } => {
                match cache {
                    Option::None => {
                        *cache = Option::Some(serialised);
                    },
                    Option::Some(_) => {},
                }
            },
            Payload::Bytes(_) => {},
        }
    }

    /// The payload as bytes: the bytes themselves, or the serialisation
    /// cached by `materialize`; nothing while a typed payload has not
    /// been materialized yet.
    pub fn payload_bytes(&self) -> (r: Option<&Vec<u8>>)
        ensures
            match self.payload {
                Payload::Bytes(b) => r matches Option::Some(v) && v@ == b@,
                Payload::Typed { cache: Option::Some(b) } => r matches Option::Some(v) && v@
                    == b@,
                Payload::Typed { cache: Option::None } => r is None,
            },
    {
        match &self.payload {
            Payload::Bytes(b) => Option::Some(b),
            Payload::Typed { cache } => {
                match cache {
                    Option::Some(b) => Option::Some(b),
                    Option::None => Option::None,
                }
            },
        }
    }

    /// The message's timestamp.
    pub fn timestamp(&self) -> (r: &TimestampRepr)
        ensures
            r == &self.ts,
    {
        &self.ts
    }
}

/// A message as the transport hands it over: data, a bare watermark, or a
/// control message of the scheduler.
pub enum TransportMessage {
    Data(LinkMessage),
    Watermark(TimestampRepr),
    Control,
}

/// Converts a transport message into the boundary data message.
///
/// A data message must already be materialized as bytes — a still-typed
/// payload cannot cross and is `InvalidData`.  A watermark becomes a
/// one-byte message flagged as such.  A control message has no boundary
/// conversion: that conversion is explicitly reserved and fails loudly as
/// `Unimplemented`, never silently.
pub fn message_of_transport(m: TransportMessage) -> (r: Result<DataMessage, BridgeError>)
    ensures
        match m {
            TransportMessage::Data(lm) => match lm.payload {
                Payload::Bytes(b) => r matches Result::Ok(d) && d@ == (MessageModel {
                    data: b@,
                    time: lm.ts.time,
                    id: lm.ts.id@,
                    watermark: false,
                    misses: Seq::empty(),
                }),
                Payload::Typed { cache: Option::Some(b) } => r matches Result::Ok(d) && d@ == (
                MessageModel {
                    data: b@,
                    time: lm.ts.time,
                    id: lm.ts.id@,
                    watermark: false,
                    misses: Seq::empty(),
                }),
                Payload::Typed { cache: Option::None } => r matches Result::Err(e) && e
                    is InvalidData,
            },
            TransportMessage::Watermark(ts) => r matches Result::Ok(d) && d@ == (MessageModel {
                data: seq![0u8],
                time: ts.time,
                id: ts.id@,
                watermark: true,
                misses: Seq::empty(),
            }),
            TransportMessage::Control => r matches Result::Err(e) && e is Unimplemented,
        },
{
    match m {
        TransportMessage::Data(lm) => {
            let data = match lm.payload {
                Payload::Bytes(b) => b,
                Payload::Typed { cache: Option::Some(b) } => b,
                Payload::Typed { cache: Option::None } => {
                    return Result::Err(
                        BridgeError::InvalidData(
                            String::from_str(
                                "a typed payload must be serialised before it crosses",
                            ),
                        ),
                    );
                },
            };
            let r = DataMessage {
                data,
                ts: lm.ts,
                is_watermark: false,
                missed_end_to_end_deadlines: Vec::new(),
            };
            proof {
                assert(misses_model(r.missed_end_to_end_deadlines@) =~= Seq::<MissModel>::empty());
            }
            Result::Ok(r)
        },
        TransportMessage::Watermark(ts) => {
            let mut data: Vec<u8> = Vec::new();
            data.push(0);
            let r = DataMessage {
                data,
                ts,
                is_watermark: true,
                missed_end_to_end_deadlines: Vec::new(),
            };
            proof {
                assert(misses_model(r.missed_end_to_end_deadlines@) =~= Seq::<MissModel>::empty());
                assert(r.data@ =~= seq![0u8]);
            }
            Result::Ok(r)
        },
        TransportMessage::Control => Result::Err(
            BridgeError::Unimplemented(
                String::from_str("a control message has no boundary conversion"),
            ),
        ),
    }
}

} // verus!
