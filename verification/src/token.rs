//! Input tokens and their actions.
//!
//! An Operator decides from its per-port tokens whether an iteration runs.
//! A token is either pending or ready; only a ready token carries a data
//! message and an action.  The foreign side may set the action of a ready
//! token — drop, consume or keep — and nothing else: it can never fabricate
//! data.  Across the boundary the action travels as a closed numeric
//! enumeration (0 drop, 1 consume, 2 keep); any other value is an
//! unrecoverable `InvalidData` error, never a default.

use crate::assoc::assoc_lookup;
use crate::assoc::lemma_assoc_lookup_first;
use crate::error::BridgeError;
use crate::foreign::dict_get;
use crate::foreign::dict_model;
use crate::foreign::foreign_model;
use crate::foreign::lemma_dict_model;
use crate::foreign::ForeignModel;
use crate::foreign::ForeignValue;
use crate::message::copy_bytes;
use crate::message::message_foreign;
use crate::message::message_from_foreign;
use crate::message::message_stamp_malformed;
use crate::message::message_to_foreign;
use crate::message::parse_message;
use crate::message::DataMessage;
use crate::message::E2EDeadlineMiss;
use crate::message::MessageModel;
use crate::timestamp::valid_id_text;
use crate::timestamp::TimestampRepr;
use vstd::prelude::*;
use vstd::string::StringExecFns;

verus! {

/// What the scheduler is told to do with a ready token's message: discard
/// it, consume it in this iteration, or keep it for the next.  At the
/// boundary the variants render as "Drop", "Consume" and "Keep".
pub enum TokenAction {
    Discard,
    Consume,
    Keep,
}

/// The closed numeric code of an action: 0 discards, 1 consumes, 2 keeps.
pub open spec fn code_of_action(a: TokenAction) -> u64 {
    match a {
        TokenAction::Discard => 0,
        TokenAction::Consume => 1,
        TokenAction::Keep => 2,
    }
}

/// The action of a numeric code at most 2.
pub open spec fn action_of_code(c: u64) -> TokenAction {
    if c == 0 {
        TokenAction::Discard
    } else if c == 1 {
        TokenAction::Consume
    } else {
        TokenAction::Keep
    }
}

impl TokenAction {
    /// The numeric code of the action.
    pub fn code(&self) -> (r: u64)
        ensures
            r == code_of_action(*self),
    {
        match self {
            TokenAction::Discard => 0,
            TokenAction::Consume => 1,
            TokenAction::Keep => 2,
        }
    }

    /// Reads an action back from its numeric code.  The enumeration is
    /// closed: exactly the codes 0, 1 and 2 are accepted, and any other
    /// value is an `InvalidData` error, not a default.
    pub fn from_code(c: u64) -> (r: Result<TokenAction, BridgeError>)
        ensures
            match r {
                Result::Ok(a) => c <= 2 && a == action_of_code(c),
                Result::Err(e) => c > 2 && e is InvalidData,
            },
    {
        if c == 0 {
            Result::Ok(TokenAction::Discard)
        } else if c == 1 {
            Result::Ok(TokenAction::Consume)
        } else if c == 2 {
            Result::Ok(TokenAction::Keep)
        } else {
            Result::Err(
                BridgeError::InvalidData(
                    String::from_str("token action code is outside the closed enumeration"),
                ),
            )
        }
    }
}

/// A per-port readiness marker: pending, or ready with an action and the
/// data message that made it ready.
pub enum InputToken {
    Pending,
    Ready { action: TokenAction, data: DataMessage },
}

/// The mathematical shape of an [`InputToken`].
pub enum TokenModel {
    Pending,
    Ready { action: TokenAction, msg: MessageModel },
}

impl View for InputToken {
    type V = TokenModel;

    open spec fn view(&self) -> TokenModel {
        match self {
            InputToken::Pending => TokenModel::Pending,
            InputToken::Ready { action, data } => TokenModel::Ready { action: *action, msg: data@ },
        }
    }
}

impl InputToken {
    /// Whether the token is ready.
    pub fn is_ready(&self) -> (r: bool)
        ensures
            r == (self@ is Ready),
    {
        match self {
            InputToken::Ready { .. } => true,
            InputToken::Pending => false,
        }
    }

    /// Whether the token is pending.
    pub fn is_pending(&self) -> (r: bool)
        ensures
            r == (self@ is Pending),
    {
        match self {
            InputToken::Pending => true,
            InputToken::Ready { .. } => false,
        }
    }

    /// Sets a ready token's action to discard; a pending token is left
    /// unchanged.
    pub fn set_action_drop(&mut self)
        ensures
            old(self)@ matches TokenModel::Ready { msg, .. } ==> final(self)@ == (
            TokenModel::Ready { action: TokenAction::Discard, msg }),
            old(self)@ is Pending ==> final(self)@ == old(self)@,
    {
        match self {
            InputToken::Ready { action, .. } => {
                *action = TokenAction::Discard;
            },
            InputToken::Pending => {},
        }
    }

    /// Sets a ready token's action to consume; a pending token is left
    /// unchanged.
    pub fn set_action_consume(&mut self)
        ensures
            old(self)@ matches TokenModel::Ready { msg, .. } ==> final(self)@ == (
            TokenModel::Ready { action: TokenAction::Consume, msg }),
            old(self)@ is Pending ==> final(self)@ == old(self)@,
    {
        match self {
            InputToken::Ready { action, .. } => {
                *action = TokenAction::Consume;
            },
            InputToken::Pending => {},
        }
    }

    /// Sets a ready token's action to keep; a pending token is left
    /// unchanged.
    pub fn set_action_keep(&mut self)
        ensures
            old(self)@ matches TokenModel::Ready { msg, .. } ==> final(self)@ == (
            TokenModel::Ready { action: TokenAction::Keep, msg }),
            old(self)@ is Pending ==> final(self)@ == old(self)@,
    {
        match self {
            InputToken::Ready { action, .. } => {
                *action = TokenAction::Keep;
            },
            InputToken::Pending => {},
        }
    }

    /// The action's boundary rendering: "Drop", "Consume" or "Keep" for a
    /// ready token, "Pending" for a pending one.
    pub fn get_action(&self) -> (r: String)
        ensures
            match self@ {
                TokenModel::Ready { action: TokenAction::Discard, .. } => r@ == "Drop"@,
                TokenModel::Ready { action: TokenAction::Consume, .. } => r@ == "Consume"@,
                TokenModel::Ready { action: TokenAction::Keep, .. } => r@ == "Keep"@,
                TokenModel::Pending => r@ == "Pending"@,
            },
    {
        match self {
            InputToken::Ready { action: TokenAction::Discard, .. } => String::from_str("Drop"),
            InputToken::Ready { action: TokenAction::Consume, .. } => String::from_str("Consume"),
            InputToken::Ready { action: TokenAction::Keep, .. } => String::from_str("Keep"),
            InputToken::Pending => String::from_str("Pending"),
        }
    }

    /// The timestamp rendering of a ready token's message; a pending token
    /// renders as empty text.
    pub fn get_timestamp(&self) -> (r: String)
        ensures
            match self@ {
                TokenModel::Ready { msg, .. } => r@ == crate::timestamp::dec_text(msg.time as nat)
                    + "/"@ + msg.id,
                TokenModel::Pending => r@ == Seq::<char>::empty(),
            },
    {
        match self {
            InputToken::Ready { data, .. } => data.timestamp(),
            InputToken::Pending => String::new(),
        }
    }

    /// A copy of a ready token's payload bytes; a pending token has no data
    /// and yields an `InvalidData` error.
    pub fn get_data(&self) -> (r: Result<Vec<u8>, BridgeError>)
        ensures
            match r {
                Result::Ok(bytes) => self@ matches TokenModel::Ready { msg, .. } && bytes@
                    == msg.data,
                Result::Err(e) => self@ is Pending && e is InvalidData,
            },
    {
        match self {
            InputToken::Ready { data, .. } => Result::Ok(copy_bytes(&data.data)),
            InputToken::Pending => Result::Err(
                BridgeError::InvalidData(String::from_str("Pending Token has no data")),
            ),
        }
    }
}

/// The dictionary form of a token on the interpreter side.
pub open spec fn token_foreign(t: TokenModel) -> ForeignModel {
    match t {
        TokenModel::Pending => ForeignModel::Dict(
            seq![("is_ready"@, ForeignModel::Bool(false))],
        ),
        TokenModel::Ready { action, msg } => ForeignModel::Dict(
            seq![
                ("is_ready"@, ForeignModel::Bool(true)),
                (
                    "action"@,
                    ForeignModel::Int { negative: false, magnitude: code_of_action(action) },
                ),
                ("data"@, message_foreign(msg)),
            ],
        ),
    }
}

/// Reads a token back from its dictionary form; nothing if the shape is
/// wrong, the action code is outside the closed enumeration, or the
/// embedded message fails to parse.
pub open spec fn parse_token(f: ForeignModel) -> Option<TokenModel> {
    match f {
        ForeignModel::Dict(entries) => match assoc_lookup(entries, "is_ready"@) {
            Option::Some(ForeignModel::Bool(false)) => Option::Some(TokenModel::Pending),
            Option::Some(ForeignModel::Bool(true)) => match (
                assoc_lookup(entries, "action"@),
                assoc_lookup(entries, "data"@),
            ) {
                (
                    Option::Some(ForeignModel::Int { negative: false, magnitude }),
                    Option::Some(d),
                ) => if magnitude <= 2 {
                    match parse_message(d) {
                        Option::Some(m) => Option::Some(
                            TokenModel::Ready { action: action_of_code(magnitude), msg: m },
                        ),
                        Option::None => Option::None,
                    }
                } else {
                    Option::None
                },
                _ => Option::None,
            },
            _ => Option::None,
        },
        _ => Option::None,
    }
}

/// Whether dictionary entries carry a ready token whose action code falls
/// outside the closed enumeration.
pub open spec fn token_action_invalid(entries: Seq<(Seq<char>, ForeignModel)>) -> bool {
    &&& assoc_lookup(entries, "is_ready"@) == Option::Some(ForeignModel::Bool(true))
    &&& assoc_lookup(entries, "action"@) matches Option::Some(ForeignModel::Int {
        negative,
        magnitude,
    }) && (negative || magnitude > 2)
}

/// Converts a token into its interpreter-side dictionary.
pub fn token_to_foreign(t: &InputToken) -> (r: ForeignValue)
    ensures
        foreign_model(r) == token_foreign(t@),
{
    match t {
        InputToken::Pending => {
            let mut entries: Vec<(String, ForeignValue)> = Vec::new();
            entries.push((String::from_str("is_ready"), ForeignValue::Bool(false)));
            proof {
                lemma_dict_model(entries@);
                assert(dict_model(entries@) =~= token_foreign(t@)->Dict_0);
            }
            ForeignValue::Dict(entries)
        },
        InputToken::Ready { action, data } => {
            let mut entries: Vec<(String, ForeignValue)> = Vec::new();
            entries.push((String::from_str("is_ready"), ForeignValue::Bool(true)));
            entries.push(
                (
                    String::from_str("action"),
                    ForeignValue::Int { negative: false, magnitude: action.code() },
                ),
            );
            entries.push((String::from_str("data"), message_to_foreign(data)));
            proof {
                lemma_dict_model(entries@);
                assert(dict_model(entries@) =~= token_foreign(t@)->Dict_0);
            }
            ForeignValue::Dict(entries)
        },
    }
}

/// Rebuilds a token from an interpreter-side value.
///
/// An action code outside the closed enumeration on an otherwise ready
/// token is exactly an `InvalidData` error; a malformed message timestamp
/// surfaces as `Deserialization`; every other malformation is
/// `TypeConversion`.
pub fn token_from_foreign(f: &ForeignValue) -> (r: Result<InputToken, BridgeError>)
    ensures
        match r {
            Result::Ok(t) => parse_token(foreign_model(*f)) == Option::Some(t@),
            Result::Err(e) => {
                &&& parse_token(foreign_model(*f)) is None
                &&& (e is InvalidData || e is Deserialization || e is TypeConversion)
                &&& (e is InvalidData <==> (foreign_model(*f) matches ForeignModel::Dict(en)
                    && token_action_invalid(en)))
            },
        },
{
    match f {
        ForeignValue::Dict(entries) => {
            let ready: bool;
            match dict_get(entries, &String::from_str("is_ready")) {
                Option::Some(ForeignValue::Bool(b)) => {
                    ready = *b;
                },
                _ => {
                    return Result::Err(
                        BridgeError::TypeConversion(
                            String::from_str("token carries no readiness flag"),
                        ),
                    );
                },
            }
            if !ready {
                return Result::Ok(InputToken::Pending);
            }
            let code: u64;
            match dict_get(entries, &String::from_str("action")) {
                Option::Some(ForeignValue::Int { negative, magnitude }) => {
                    if *negative {
                        return Result::Err(
                            BridgeError::InvalidData(
                                String::from_str(
                                    "token action code is outside the closed enumeration",
                                ),
                            ),
                        );
                    }
                    code = *magnitude;
                },
                _ => {
                    return Result::Err(
                        BridgeError::TypeConversion(String::from_str("token carries no action")),
                    );
                },
            }
            if code > 2 {
                return Result::Err(
                    BridgeError::InvalidData(
                        String::from_str("token action code is outside the closed enumeration"),
                    ),
                );
            }
            let action = if code == 0 {
                TokenAction::Discard
            } else if code == 1 {
                TokenAction::Consume
            } else {
                TokenAction::Keep
            };
            match dict_get(entries, &String::from_str("data")) {
                Option::Some(d) => {
                    let parsed = message_from_foreign(d);
                    match parsed {
                        Result::Ok(msg) => Result::Ok(InputToken::Ready { action, data: msg }),
                        Result::Err(e) => Result::Err(e),
                    }
                },
                Option::None => Result::Err(
                    BridgeError::TypeConversion(String::from_str("token carries no data message")),
                ),
            }
        },
        _ => Result::Err(
            BridgeError::TypeConversion(String::from_str("token is not a dictionary value")),
        ),
    }
}

/// The three keys of a token dictionary are pairwise distinct.
proof fn lemma_token_keys_distinct()
    ensures
        "is_ready"@ != "action"@,
        "is_ready"@ != "data"@,
        "action"@ != "data"@,
{
    reveal_strlit("is_ready");
    reveal_strlit("action");
    reveal_strlit("data");
    assert("is_ready"@.len() == 8);
    assert("action"@.len() == 6);
    assert("data"@.len() == 4);
}

/// A token action set by the foreign side survives the conversion back:
/// marshalling a token into its dictionary form and reading it back yields
/// the token unchanged, its action included.
pub proof fn lemma_token_round_trip(t: TokenModel)
    requires
        t matches TokenModel::Ready { msg, .. } ==> valid_id_text(msg.id),
    ensures
        parse_token(token_foreign(t)) == Option::Some(t),
{
    lemma_token_keys_distinct();
    let entries = token_foreign(t)->Dict_0;
    match t {
        TokenModel::Pending => {
            lemma_assoc_lookup_first(entries, "is_ready"@, 0);
        },
        TokenModel::Ready { action, msg } => {
            lemma_assoc_lookup_first(entries, "is_ready"@, 0);
            lemma_assoc_lookup_first(entries, "action"@, 1);
            lemma_assoc_lookup_first(entries, "data"@, 2);
            crate::message::lemma_message_round_trip(msg);
        },
    }
}

/// A set of per-port tokens.
pub struct InputTokens {
    /// The tokens, keyed by port identifier.
    pub tokens: Vec<(String, InputToken)>,
}

impl InputTokens {
    /// Wraps a list of per-port tokens.
    pub fn from_pairs(tokens: Vec<(String, InputToken)>) -> (r: InputTokens)
        ensures
            r.tokens@ == tokens@,
    {
        InputTokens { tokens }
    }

    /// The token of the given port, by reference.
    ///
    /// A port identifier that no entry carries is exactly a `NotFound`
    /// error.
    pub fn get<'a>(&'a self, port_id: &String) -> (r: Result<&'a InputToken, BridgeError>)
        ensures
            match r {
                Result::Ok(t) => exists|i: int|
                    0 <= i < self.tokens@.len() && (#[trigger] self.tokens@[i]).0@ == port_id@
                        && self.tokens@[i].1@ == t@,
                Result::Err(e) => e is NotFound && forall|i: int|
                    0 <= i < self.tokens@.len() ==> (#[trigger] self.tokens@[i]).0@ != port_id@,
            },
    {
        let found = crate::assoc::find_key(&self.tokens, port_id);
        match found {
            Option::Some(i) => Result::Ok(&self.tokens[i].1),
            Option::None => Result::Err(
                BridgeError::NotFound(
                    String::from_str("no token is held for the given port identifier"),
                ),
            ),
        }
    }
}

/// The models of a sequence of per-port tokens, elementwise.
pub open spec fn tokens_model(entries: Seq<(String, InputToken)>) -> Seq<(Seq<char>, TokenModel)>
    decreases entries,
{
    if entries.len() == 0 {
        Seq::empty()
    } else {
        seq![(entries[0].0@, entries[0].1@)] + tokens_model(entries.skip(1))
    }
}

/// `tokens_model` maps the model over the entries elementwise.
pub proof fn lemma_tokens_model(entries: Seq<(String, InputToken)>)
    ensures
        tokens_model(entries).len() == entries.len(),
        forall|i: int|
            0 <= i < entries.len() ==> #[trigger] tokens_model(entries)[i] == (
                entries[i].0@,
                entries[i].1@,
            ),
    decreases entries.len(),
{
    if entries.len() > 0 {
        lemma_tokens_model(entries.skip(1));
    }
}

/// The dictionary forms of a sequence of per-port tokens.
pub open spec fn tokens_foreign(entries: Seq<(Seq<char>, TokenModel)>) -> Seq<
    (Seq<char>, ForeignModel),
>
    decreases entries,
{
    if entries.len() == 0 {
        Seq::empty()
    } else {
        seq![(entries[0].0, token_foreign(entries[0].1))] + tokens_foreign(entries.skip(1))
    }
}

/// `tokens_foreign` maps the dictionary form over the entries elementwise.
pub proof fn lemma_tokens_foreign(entries: Seq<(Seq<char>, TokenModel)>)
    ensures
        tokens_foreign(entries).len() == entries.len(),
        forall|i: int|
            0 <= i < entries.len() ==> #[trigger] tokens_foreign(entries)[i] == (
                entries[i].0,
                token_foreign(entries[i].1),
            ),
    decreases entries.len(),
{
    if entries.len() > 0 {
        lemma_tokens_foreign(entries.skip(1));
    }
}

/// Converts a set of per-port tokens into its interpreter-side dictionary
/// of token dictionaries.
pub fn tokens_to_foreign(tokens: &InputTokens) -> (r: ForeignValue)
    ensures
        foreign_model(r) == ForeignModel::Dict(tokens_foreign(tokens_model(tokens.tokens@))),
{
    let mut entries: Vec<(String, ForeignValue)> = Vec::new();
    let mut i: usize = 0;
    while i < tokens.tokens.len()
        invariant
            0 <= i <= tokens.tokens@.len(),
            entries@.len() == i,
            forall|j: int|
                0 <= j < i ==> (#[trigger] entries@[j]).0@ == tokens.tokens@[j].0@
                    && foreign_model(entries@[j].1) == token_foreign(tokens.tokens@[j].1@),
        decreases tokens.tokens@.len() - i,
    {
        let key = tokens.tokens[i].0.clone();
        let fv = token_to_foreign(&tokens.tokens[i].1);
        entries.push((key, fv));
        i = i + 1;
    }
    proof {
        lemma_dict_model(entries@);
        lemma_tokens_model(tokens.tokens@);
        lemma_tokens_foreign(tokens_model(tokens.tokens@));
        assert(dict_model(entries@) =~= tokens_foreign(tokens_model(tokens.tokens@)));
    }
    ForeignValue::Dict(entries)
}

} // verus!
