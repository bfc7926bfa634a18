//! The edge to the native hybrid-logical-clock crate.
//!
//! The native runtime stamps messages with `uhlc` timestamps.  The bridge
//! carries a timestamp across the boundary as a plain counter and an
//! identifier text ([`crate::timestamp::TimestampRepr`]); this module holds
//! the trusted declarations and wrappers through which such a
//! representation is exchanged with a real `uhlc` value, and the verified
//! conversions built on them.  What a clock value holds is named rather
//! than spelled out: `uhlc`'s accessors and renderings are functions of
//! their argument alone, so each bears an uninterpreted name that the
//! wrappers' contracts share.

use crate::error::BridgeError;
use crate::timestamp::valid_id_text;
use crate::timestamp::TimestampRepr;
use std::str::FromStr;
use vstd::prelude::*;
use vstd::string::StringExecFns;

verus! {

#[verifier::external_type_specification]
#[verifier::external_body]
pub struct ExUhlcId(uhlc::ID);

#[verifier::external_type_specification]
#[verifier::external_body]
pub struct ExUhlcTimestamp(uhlc::Timestamp);

/// The counter a clock timestamp carries: what uhlc::Timestamp::get_time
/// (unwrapped to its 64-bit value) returns for it.
pub uninterp spec fn clock_time_of(ts: uhlc::Timestamp) -> u64;

/// The identifier a clock timestamp carries: what uhlc::Timestamp::get_id
/// returns for it.
pub uninterp spec fn clock_ident_of(ts: uhlc::Timestamp) -> uhlc::ID;

/// The text rendering of a clock identifier: what uhlc::ID's Display
/// produces for it.
pub uninterp spec fn ident_text_of(id: uhlc::ID) -> Seq<char>;

/// The clock identifier a valid identifier text parses to: what
/// uhlc::ID's FromStr returns on text the grammar admits.
pub uninterp spec fn parsed_ident_of(s: Seq<char>) -> uhlc::ID;

/// Relies on uhlc::ID's FromStr: parsing succeeds exactly on a non-empty
/// hexadecimal numeral that does not start with a zero digit, may carry one
/// leading plus sign, and has a non-zero value fitting 128 bits; the
/// parsed identifier is a function of the text alone.
#[verifier::external_body]
fn parse_clock_id(s: &str) -> (r: Option<uhlc::ID>)
    ensures
        r is Some <==> valid_id_text(s@),
        r matches Option::Some(id) ==> id == parsed_ident_of(s@),
{
    uhlc::ID::from_str(s).ok()
}

/// Relies on uhlc::ID's Display, a function of the identifier alone: a
/// non-zero identifier renders as its value in lowercase hexadecimal
/// without leading zeros, which satisfies the identifier grammar; the zero
/// value, which no public constructor of the crate produces, renders as a
/// single zero digit.
#[verifier::external_body]
fn clock_id_text(id: &uhlc::ID) -> (r: String)
    ensures
        r@ == ident_text_of(*id),
        r@ == "0"@ || valid_id_text(r@),
{
    format!("{id}")
}

/// Relies on uhlc::Timestamp::new, which stores the given time and
/// identifier, so its accessors return exactly them.
#[verifier::external_body]
fn clock_timestamp_new(time: u64, id: uhlc::ID) -> (r: uhlc::Timestamp)
    ensures
        clock_time_of(r) == time,
        clock_ident_of(r) == id,
{
    uhlc::Timestamp::new(uhlc::NTP64(time), id)
}

/// Relies on uhlc::Timestamp::get_time; the NTP64 wrapper around the
/// 64-bit counter is unwrapped on the way out.
#[verifier::external_body]
fn clock_timestamp_time(ts: &uhlc::Timestamp) -> (r: u64)
    ensures
        r == clock_time_of(*ts),
{
    ts.get_time().as_u64()
}

/// Relies on uhlc::Timestamp::get_id; the identifier is copied out.
#[verifier::external_body]
fn clock_timestamp_id(ts: &uhlc::Timestamp) -> (r: uhlc::ID)
    ensures
        r == clock_ident_of(*ts),
{
    *ts.get_id()
}

/// Rebuilds a native clock timestamp from its boundary representation.
///
/// Succeeds exactly when the identifier text satisfies the clock-identifier
/// grammar, and then carries exactly the given counter and the identifier
/// the text parses to; any other text is rejected as a `Deserialization`
/// error.
pub fn timestamp_to_clock(t: &TimestampRepr) -> (r: Result<uhlc::Timestamp, BridgeError>)
    ensures
        r is Ok <==> valid_id_text(t.id@),
        r matches Result::Ok(c) ==> clock_time_of(c) == t.time && clock_ident_of(c)
            == parsed_ident_of(t.id@),
        r matches Result::Err(e) ==> e is Deserialization,
{
    let parsed = parse_clock_id(t.id.as_str());
    match parsed {
        Option::Some(id) => Result::Ok(clock_timestamp_new(t.time, id)),
        Option::None => Result::Err(
            BridgeError::Deserialization(
                <String as StringExecFns>::from_str("timestamp carries no valid clock identifier"),
            ),
        ),
    }
}

/// Reads a native clock timestamp into its boundary representation: the
/// clock value's own counter, and the clock crate's own rendering of its
/// identifier.  For every identifier the crate can construct that text
/// satisfies the identifier grammar, so the representation converts back.
pub fn timestamp_from_clock(ts: &uhlc::Timestamp) -> (r: TimestampRepr)
    ensures
        r.time == clock_time_of(*ts),
        r.id@ == ident_text_of(clock_ident_of(*ts)),
        r.id@ == "0"@ || valid_id_text(r.id@),
{
    let time = clock_timestamp_time(ts);
    let id = clock_id_text(&clock_timestamp_id(ts));
    TimestampRepr { time, id }
}

} // verus!
