//! Frame classification.
//!
//! A frame is assigned to an event family by the first discriminator token
//! (in a fixed order) that occurs in it as a substring. A frame whose only
//! token is `stream` is the multiplexed-endpoint envelope; a frame with no
//! token at all is unknown and is dropped.

use vstd::prelude::*;
use crate::scan::{contains_tok, contains_sub};

verus! {

/// The handler families: each bundles the event variants served by one
/// registered handler.
#[derive(PartialEq, Eq, Structural, Clone, Copy, Debug)]
pub enum Family {
    UserStream,
    Market,
    DayTicker,
    Kline,
}

/// The outcome of classifying one frame.
#[derive(PartialEq, Eq, Structural, Clone, Copy, Debug)]
pub enum Classification {
    AccountUpdate,
    OrderTrade,
    AggregatedTrade,
    DayTickerBatch,
    KlineUpdate,
    PartialOrderBook,
    DepthDelta,
    Envelope,
    Unknown,
}

pub open spec fn tok_account() -> Seq<char> {
    "outboundAccountInfo"@
}

pub open spec fn tok_execution() -> Seq<char> {
    "executionReport"@
}

pub open spec fn tok_agg_trade() -> Seq<char> {
    "aggTrade"@
}

pub open spec fn tok_day_ticker() -> Seq<char> {
    "24hrTicker"@
}

pub open spec fn tok_kline() -> Seq<char> {
    "kline"@
}

pub open spec fn tok_partial_book() -> Seq<char> {
    "lastUpdateId"@
}

pub open spec fn tok_depth() -> Seq<char> {
    "depthUpdate"@
}

pub open spec fn tok_stream() -> Seq<char> {
    "stream"@
}

/// The discriminator tokens in their fixed classification order.
pub open spec fn token_order() -> Seq<Seq<char>> {
    seq![
        tok_account(),
        tok_execution(),
        tok_agg_trade(),
        tok_day_ticker(),
        tok_kline(),
        tok_partial_book(),
        tok_depth(),
        tok_stream(),
    ]
}

/// The classification owed to the token at position `i` of `token_order`.
pub open spec fn class_of_token(i: int) -> Classification {
    if i == 0 {
        Classification::AccountUpdate
    } else if i == 1 {
        Classification::OrderTrade
    } else if i == 2 {
        Classification::AggregatedTrade
    } else if i == 3 {
        Classification::DayTickerBatch
    } else if i == 4 {
        Classification::KlineUpdate
    } else if i == 5 {
        Classification::PartialOrderBook
    } else if i == 6 {
        Classification::DepthDelta
    } else if i == 7 {
        Classification::Envelope
    } else {
        Classification::Unknown
    }
}

/// Classification of a frame: the class of the first token it contains.
pub open spec fn classify_spec(s: Seq<char>) -> Classification {
    if contains_tok(s, tok_account()) {
        Classification::AccountUpdate
    } else if contains_tok(s, tok_execution()) {
        Classification::OrderTrade
    } else if contains_tok(s, tok_agg_trade()) {
        Classification::AggregatedTrade
    } else if contains_tok(s, tok_day_ticker()) {
        Classification::DayTickerBatch
    } else if contains_tok(s, tok_kline()) {
        Classification::KlineUpdate
    } else if contains_tok(s, tok_partial_book()) {
        Classification::PartialOrderBook
    } else if contains_tok(s, tok_depth()) {
        Classification::DepthDelta
    } else if contains_tok(s, tok_stream()) {
        Classification::Envelope
    } else {
        Classification::Unknown
    }
}

/// Whether a classification names a concrete event family (as opposed to the
/// envelope wrapper or an unknown frame).
pub open spec fn is_family_class(c: Classification) -> bool {
    c != Classification::Envelope && c != Classification::Unknown
}

/// The handler family that serves a family classification. The envelope and
/// unknown classifications name no family; their arms are never reached
/// where `is_family_class` holds and carry an arbitrary value.
pub open spec fn family_of(c: Classification) -> Family {
    match c {
        Classification::AccountUpdate => Family::UserStream,
        Classification::OrderTrade => Family::UserStream,
        Classification::AggregatedTrade => Family::Market,
        Classification::DayTickerBatch => Family::DayTicker,
        Classification::KlineUpdate => Family::Kline,
        Classification::PartialOrderBook => Family::Market,
        Classification::DepthDelta => Family::Market,
        Classification::Envelope => Family::Market,
        Classification::Unknown => Family::Market,
    }
}

/// Classify one frame by the first discriminator token it contains.
pub fn classify(msg: &str) -> (c: Classification)
    ensures
        c == classify_spec(msg@),
{
    if contains_sub(msg, "outboundAccountInfo") {
        Classification::AccountUpdate
    } else if contains_sub(msg, "executionReport") {
        Classification::OrderTrade
    } else if contains_sub(msg, "aggTrade") {
        Classification::AggregatedTrade
    } else if contains_sub(msg, "24hrTicker") {
        Classification::DayTickerBatch
    } else if contains_sub(msg, "kline") {
        Classification::KlineUpdate
    } else if contains_sub(msg, "lastUpdateId") {
        Classification::PartialOrderBook
    } else if contains_sub(msg, "depthUpdate") {
        Classification::DepthDelta
    } else if contains_sub(msg, "stream") {
        Classification::Envelope
    } else {
        Classification::Unknown
    }
}

/// Law: classification is a function of the frame, so each frame is assigned
/// at most one class; the class assigned is the one of the first token (in
/// the fixed order) contained in the frame, and a frame containing no token
/// at all is unknown.
pub proof fn lemma_classification_first_token(s: Seq<char>)
    ensures
        forall|i: int|
            0 <= i < token_order().len() && classify_spec(s) == #[trigger] class_of_token(i)
                ==> contains_tok(s, token_order()[i]) && (forall|j: int|
                0 <= j < i ==> !#[trigger] contains_tok(s, token_order()[j])),
        classify_spec(s) == Classification::Unknown <==> (forall|i: int|
            0 <= i < token_order().len() ==> !#[trigger] contains_tok(s, token_order()[i])),
{
    assert(token_order()[0] == tok_account());
    assert(token_order()[1] == tok_execution());
    assert(token_order()[2] == tok_agg_trade());
    assert(token_order()[3] == tok_day_ticker());
    assert(token_order()[4] == tok_kline());
    assert(token_order()[5] == tok_partial_book());
    assert(token_order()[6] == tok_depth());
    assert(token_order()[7] == tok_stream());
}

} // verus!
