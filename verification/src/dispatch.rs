//! The handler registry and the dispatcher.
//!
//! The dispatcher owns at most one handler per event family. For each frame
//! it classifies, unwraps the envelope where one is present, decodes, and
//! invokes the family's handler; a malformed or unknown frame is dropped and
//! the loop goes on. The returned `Outcome` records what happened to the
//! frame — including the decoded event that was delivered — and the
//! contracts pin it exactly: delivery is owed whenever the routed payload
//! decodes for its variant and a handler is registered.

use vstd::prelude::*;
use crate::classify::{
    Family, Classification, classify, classify_spec, family_of, is_family_class, token_order,
    tok_account, tok_execution, tok_agg_trade, tok_day_ticker, tok_kline, tok_partial_book,
    tok_depth, tok_stream,
};
use crate::envelope::{data_key, extract_spec, extract_data};
use crate::scan::{
    contains_tok, contains_sub, match_at, last_index_of, lemma_first_match_unique,
    lemma_last_index_unique,
};
use crate::events::{
    AccountUpdateEvent, OrderTradeEvent, TradesEvent, DayTickerEvent, KlineEvent,
    DepthOrderBookEvent, OrderBook, WsError,
};
use crate::decode::{
    decode_account_update, decode_order_trade, decode_trades, decode_day_ticker, decode_kline,
    decode_depth, decode_order_book, trades_of_doc, order_trade_of_doc, kline_of_doc,
    account_decodes, account_matches, tickers_decode, tickers_match, depth_decodes, depth_matches,
    order_book_decodes, order_book_matches,
};
use crate::jsonval::{JsonDoc, json_well_formed, json_doc_of};
use crate::endpoint::{
    single_base, multi_base, join_spec, url_parses, url_ok, single_stream_url, multi_stream_url,
};

verus! {

/// Receives user-stream events.
pub trait UserStreamEventHandler {
    fn account_update_handler(&self, event: &AccountUpdateEvent);

    fn order_trade_handler(&self, event: &OrderTradeEvent);
}

/// Receives market events.
pub trait MarketEventHandler {
    fn aggregated_trades_handler(&self, event: &TradesEvent);

    fn depth_orderbook_handler(&self, event: &DepthOrderBookEvent);

    fn partial_orderbook_handler(&self, order_book: &OrderBook);
}

/// Receives day-ticker batches.
pub trait DayTickerEventHandler {
    fn day_ticker_handler(&self, event: &[DayTickerEvent]);
}

/// Receives kline events.
pub trait KlineEventHandler {
    fn kline_handler(&self, event: &KlineEvent);
}

/// The typed event a frame decoded to; exactly this value was handed to the
/// family's handler.
#[derive(Debug)]
pub enum DecodedEvent {
    Account(AccountUpdateEvent),
    Order(OrderTradeEvent),
    Trades(TradesEvent),
    Tickers(Vec<DayTickerEvent>),
    KlineEv(KlineEvent),
    Partial(OrderBook),
    Depth(DepthOrderBookEvent),
}

/// What became of one frame.
#[derive(Debug)]
pub enum Outcome {
    /// The payload decoded to this event, which reached the handler method
    /// owed to the classification.
    Delivered(Classification, DecodedEvent),
    /// The frame was classified but its payload did not decode for the
    /// variant; it was dropped and the loop goes on.
    DecodeFailed(Classification),
    /// No handler is registered for the frame's family; the frame was
    /// skipped without decoding.
    NoHandler(Family),
    /// An envelope frame without an extractable payload; dropped.
    Malformed,
    /// No discriminator token matched, or an envelope wrapped no
    /// classifiable payload; dropped.
    Ignored,
}

/// The dispatcher's connection state.
#[derive(PartialEq, Eq, Structural, Clone, Copy, Debug)]
pub enum ConnState {
    Disconnected,
    Connected,
}

/// Where one frame is routed: to a family with a payload text, or dropped.
pub enum RoutePlan {
    Deliver(Classification, Seq<char>),
    DropUnknown,
    DropMalformed,
}

/// Whether the document fits the schema of the classified variant.
pub open spec fn decodes_for(c: Classification, d: JsonDoc) -> bool {
    match c {
        Classification::AccountUpdate => account_decodes(d),
        Classification::OrderTrade => order_trade_of_doc(d) is Some,
        Classification::AggregatedTrade => trades_of_doc(d) is Some,
        Classification::DayTickerBatch => tickers_decode(d),
        Classification::KlineUpdate => kline_of_doc(d) is Some,
        Classification::PartialOrderBook => order_book_decodes(d),
        Classification::DepthDelta => depth_decodes(d),
        Classification::Envelope => false,
        Classification::Unknown => false,
    }
}

/// Whether `de` is the event the document carries for the classified
/// variant — the variant picks the handler method, and the event is a
/// function of the document.
pub open spec fn delivery_ok(c: Classification, d: JsonDoc, de: DecodedEvent) -> bool {
    match c {
        Classification::AccountUpdate => de matches DecodedEvent::Account(a) && account_matches(
            d,
            a,
        ),
        Classification::OrderTrade => de matches DecodedEvent::Order(ev) && order_trade_of_doc(d)
            == Some(ev),
        Classification::AggregatedTrade => de matches DecodedEvent::Trades(t) && trades_of_doc(d)
            == Some(t),
        Classification::DayTickerBatch => de matches DecodedEvent::Tickers(v) && tickers_match(
            d,
            v@,
        ),
        Classification::KlineUpdate => de matches DecodedEvent::KlineEv(k) && kline_of_doc(d)
            == Some(k),
        Classification::PartialOrderBook => de matches DecodedEvent::Partial(ob)
            && order_book_matches(d, ob),
        Classification::DepthDelta => de matches DecodedEvent::Depth(ev) && depth_matches(d, ev),
        Classification::Envelope => false,
        Classification::Unknown => false,
    }
}

/// The payload a classified frame hands to its decoder: the frame itself,
/// or, for a frame that carries both the envelope's `"data":` key and the
/// `stream` token (the multiplexed endpoint's shape), the unwrapped payload.
pub open spec fn payload_spec(m: Seq<char>, c: Classification) -> RoutePlan {
    if contains_tok(m, data_key()) && contains_tok(m, tok_stream()) {
        match extract_spec(m) {
            Option::None => RoutePlan::DropMalformed,
            Option::Some(inner) => RoutePlan::Deliver(c, inner),
        }
    } else {
        RoutePlan::Deliver(c, m)
    }
}

/// Routing of one frame: classification by first token, then a single level
/// of envelope unwrapping.
pub open spec fn route_spec(m: Seq<char>) -> RoutePlan {
    let c = classify_spec(m);
    if c == Classification::Unknown {
        RoutePlan::DropUnknown
    } else if c == Classification::Envelope {
        match extract_spec(m) {
            Option::None => RoutePlan::DropMalformed,
            Option::Some(inner) => {
                let c2 = classify_spec(inner);
                if c2 == Classification::Unknown || c2 == Classification::Envelope {
                    RoutePlan::DropUnknown
                } else {
                    RoutePlan::Deliver(c2, inner)
                }
            },
        }
    } else {
        payload_spec(m, c)
    }
}

/// The stream demultiplexer: the registry of handlers and the dispatch
/// pipeline that drives classify, unwrap, decode and deliver.
pub struct WebSockets<U, M, D, K> {
    pub state: ConnState,
    pub user_stream_handler: Option<U>,
    pub market_handler: Option<M>,
    pub ticker_handler: Option<D>,
    pub kline_handler: Option<K>,
}

impl<
    U: UserStreamEventHandler,
    M: MarketEventHandler,
    D: DayTickerEventHandler,
    K: KlineEventHandler,
> WebSockets<U, M, D, K> {
    /// Whether a handler is registered for the family.
    pub open spec fn has_handler(self, f: Family) -> bool {
        match f {
            Family::UserStream => self.user_stream_handler is Some,
            Family::Market => self.market_handler is Some,
            Family::DayTicker => self.ticker_handler is Some,
            Family::Kline => self.kline_handler is Some,
        }
    }

    /// The registry with the user-stream handler replaced.
    pub open spec fn spec_set_user_stream(self, h: U) -> Self {
        WebSockets {
            state: self.state,
            user_stream_handler: Some(h),
            market_handler: self.market_handler,
            ticker_handler: self.ticker_handler,
            kline_handler: self.kline_handler,
        }
    }

    /// The registry with the market handler replaced.
    pub open spec fn spec_set_market(self, h: M) -> Self {
        WebSockets {
            state: self.state,
            user_stream_handler: self.user_stream_handler,
            market_handler: Some(h),
            ticker_handler: self.ticker_handler,
            kline_handler: self.kline_handler,
        }
    }

    /// The registry with the day-ticker handler replaced.
    pub open spec fn spec_set_day_ticker(self, h: D) -> Self {
        WebSockets {
            state: self.state,
            user_stream_handler: self.user_stream_handler,
            market_handler: self.market_handler,
            ticker_handler: Some(h),
            kline_handler: self.kline_handler,
        }
    }

    /// The registry with the kline handler replaced.
    pub open spec fn spec_set_kline(self, h: K) -> Self {
        WebSockets {
            state: self.state,
            user_stream_handler: self.user_stream_handler,
            market_handler: self.market_handler,
            ticker_handler: self.ticker_handler,
            kline_handler: Some(h),
        }
    }

    /// A dispatcher with no registrations and no transport.
    pub fn new() -> (ws: Self)
        ensures
            ws.state == ConnState::Disconnected,
            ws.user_stream_handler is None,
            ws.market_handler is None,
            ws.ticker_handler is None,
            ws.kline_handler is None,
    {
        WebSockets {
            state: ConnState::Disconnected,
            user_stream_handler: None,
            market_handler: None,
            ticker_handler: None,
            kline_handler: None,
        }
    }

    /// Register (or replace) the user-stream handler.
    pub fn add_user_stream_handler(&mut self, handler: U)
        ensures
            *final(self) == old(self).spec_set_user_stream(handler),
    {
        self.user_stream_handler = Some(handler);
    }

    /// Register (or replace) the market handler.
    pub fn add_market_handler(&mut self, handler: M)
        ensures
            *final(self) == old(self).spec_set_market(handler),
    {
        self.market_handler = Some(handler);
    }

    /// Register (or replace) the day-ticker handler.
    pub fn add_day_ticker_handler(&mut self, handler: D)
        ensures
            *final(self) == old(self).spec_set_day_ticker(handler),
    {
        self.ticker_handler = Some(handler);
    }

    /// Register (or replace) the kline handler.
    pub fn add_kline_handler(&mut self, handler: K)
        ensures
            *final(self) == old(self).spec_set_kline(handler),
    {
        self.kline_handler = Some(handler);
    }

    /// Compose the single-stream URL for `endpoint` and move to the
    /// connected state when it parses; the registry is never touched.
    pub fn connect(&mut self, endpoint: &str) -> (r: Result<String, WsError>)
        ensures
            url_parses(single_base() + endpoint@) ==> (r matches Ok(u) && u@ == single_base()
                + endpoint@ && final(self).state == ConnState::Connected),
            !url_parses(single_base() + endpoint@) ==> r == Err::<String, WsError>(
                WsError::BadEndpoint,
            ) && final(self).state == old(self).state,
            final(self).user_stream_handler == old(self).user_stream_handler,
            final(self).market_handler == old(self).market_handler,
            final(self).ticker_handler == old(self).ticker_handler,
            final(self).kline_handler == old(self).kline_handler,
    {
        let url = single_stream_url(endpoint);
        if url_ok(url.as_str()) {
            self.state = ConnState::Connected;
            Ok(url)
        } else {
            Err(WsError::BadEndpoint)
        }
    }

    /// Compose the multiplexed URL for the given stream names and move to
    /// the connected state when it parses; the registry is never touched.
    pub fn connect_multiple_streams(&mut self, endpoints: &Vec<String>) -> (r: Result<
        String,
        WsError,
    >)
        ensures
            url_parses(multi_base() + join_spec(endpoints.deep_view())) ==> (r matches Ok(u)
                && u@ == multi_base() + join_spec(endpoints.deep_view()) && final(self).state
                == ConnState::Connected),
            !url_parses(multi_base() + join_spec(endpoints.deep_view())) ==> r == Err::<
                String,
                WsError,
            >(WsError::BadEndpoint) && final(self).state == old(self).state,
            final(self).user_stream_handler == old(self).user_stream_handler,
            final(self).market_handler == old(self).market_handler,
            final(self).ticker_handler == old(self).ticker_handler,
            final(self).kline_handler == old(self).kline_handler,
    {
        let url = multi_stream_url(endpoints);
        if url_ok(url.as_str()) {
            self.state = ConnState::Connected;
            Ok(url)
        } else {
            Err(WsError::BadEndpoint)
        }
    }

    /// Decode the classified payload and hand it to the family's handler:
    /// without a registered handler the payload is skipped undecoded; with
    /// one, the decoded event is delivered exactly when the payload decodes
    /// for the variant, and the outcome carries that event.
    fn deliver(&self, c: Classification, payload: &str) -> (o: Outcome)
        requires
            is_family_class(c),
        ensures
            ({
                let f = family_of(c);
                if !self.has_handler(f) {
                    o == Outcome::NoHandler(f)
                } else if json_well_formed(payload@) && decodes_for(c, json_doc_of(payload@)) {
                    o matches Outcome::Delivered(c2, de) && c2 == c && delivery_ok(
                        c,
                        json_doc_of(payload@),
                        de,
                    )
                } else {
                    o == Outcome::DecodeFailed(c)
                }
            }),
    {
        match c {
            Classification::AccountUpdate => match &self.user_stream_handler {
                None => Outcome::NoHandler(Family::UserStream),
                Some(h) => match decode_account_update(payload) {
                    Some(ev) => {
                        h.account_update_handler(&ev);
                        Outcome::Delivered(c, DecodedEvent::Account(ev))
                    },
                    None => Outcome::DecodeFailed(c),
                },
            },
            Classification::OrderTrade => match &self.user_stream_handler {
                None => Outcome::NoHandler(Family::UserStream),
                Some(h) => match decode_order_trade(payload) {
                    Some(ev) => {
                        h.order_trade_handler(&ev);
                        Outcome::Delivered(c, DecodedEvent::Order(ev))
                    },
                    None => Outcome::DecodeFailed(c),
                },
            },
            Classification::AggregatedTrade => match &self.market_handler {
                None => Outcome::NoHandler(Family::Market),
                Some(h) => match decode_trades(payload) {
                    Some(ev) => {
                        h.aggregated_trades_handler(&ev);
                        Outcome::Delivered(c, DecodedEvent::Trades(ev))
                    },
                    None => Outcome::DecodeFailed(c),
                },
            },
            Classification::DayTickerBatch => match &self.ticker_handler {
                None => Outcome::NoHandler(Family::DayTicker),
                Some(h) => match decode_day_ticker(payload) {
                    Some(evs) => {
                        h.day_ticker_handler(evs.as_slice());
                        Outcome::Delivered(c, DecodedEvent::Tickers(evs))
                    },
                    None => Outcome::DecodeFailed(c),
                },
            },
            Classification::KlineUpdate => match &self.kline_handler {
                None => Outcome::NoHandler(Family::Kline),
                Some(h) => match decode_kline(payload) {
                    Some(ev) => {
                        h.kline_handler(&ev);
                        Outcome::Delivered(c, DecodedEvent::KlineEv(ev))
                    },
                    None => Outcome::DecodeFailed(c),
                },
            },
            Classification::PartialOrderBook => match &self.market_handler {
                None => Outcome::NoHandler(Family::Market),
                Some(h) => match decode_order_book(payload) {
                    Some(ev) => {
                        h.partial_orderbook_handler(&ev);
                        Outcome::Delivered(c, DecodedEvent::Partial(ev))
                    },
                    None => Outcome::DecodeFailed(c),
                },
            },
            Classification::DepthDelta => match &self.market_handler {
                None => Outcome::NoHandler(Family::Market),
                Some(h) => match decode_depth(payload) {
                    Some(ev) => {
                        h.depth_orderbook_handler(&ev);
                        Outcome::Delivered(c, DecodedEvent::Depth(ev))
                    },
                    None => Outcome::DecodeFailed(c),
                },
            },
            Classification::Envelope => {
                assert(false);
                Outcome::Ignored
            },
            Classification::Unknown => {
                assert(false);
                Outcome::Ignored
            },
        }
    }

    /// Whether `o` is the outcome the routing specification owes the frame
    /// `m` under this registry: dropped frames give their drop reason; a
    /// routed frame without a handler is skipped; a routed frame with a
    /// handler is delivered exactly when its payload decodes for the
    /// variant, and the delivered event is the document's.
    pub open spec fn outcome_matches(self, m: Seq<char>, o: Outcome) -> bool {
        match route_spec(m) {
            RoutePlan::Deliver(c, p) => {
                let f = family_of(c);
                if !self.has_handler(f) {
                    o == Outcome::NoHandler(f)
                } else if json_well_formed(p) && decodes_for(c, json_doc_of(p)) {
                    o matches Outcome::Delivered(c2, de) && c2 == c && delivery_ok(
                        c,
                        json_doc_of(p),
                        de,
                    )
                } else {
                    o == Outcome::DecodeFailed(c)
                }
            },
            RoutePlan::DropUnknown => o == Outcome::Ignored,
            RoutePlan::DropMalformed => o == Outcome::Malformed,
        }
    }

    /// Dispatch one frame: classify it, unwrap the envelope where one is
    /// present, decode the payload and deliver it to the family's handler.
    pub fn handle_msg(&self, msg: &str) -> (o: Outcome)
        ensures
            self.outcome_matches(msg@, o),
    {
        let c = classify(msg);
        match c {
            Classification::Unknown => Outcome::Ignored,
            Classification::Envelope => {
                match extract_data(msg) {
                    None => Outcome::Malformed,
                    Some(inner) => {
                        let c2 = classify(inner);
                        match c2 {
                            Classification::Unknown => Outcome::Ignored,
                            Classification::Envelope => Outcome::Ignored,
                            _ => self.deliver(c2, inner),
                        }
                    },
                }
            },
            _ => {
                if contains_sub(msg, "\"data\":") && contains_sub(msg, "stream") {
                    match extract_data(msg) {
                        None => Outcome::Malformed,
                        Some(inner) => self.deliver(c, inner),
                    }
                } else {
                    self.deliver(c, msg)
                }
            },
        }
    }

    /// Dispatch a sequence of frames, in order: each frame is handled
    /// exactly as `handle_msg` handles it, and the outcomes stand in frame
    /// order.
    pub fn dispatch_all(&self, msgs: &Vec<String>) -> (outcomes: Vec<Outcome>)
        ensures
            outcomes@.len() == msgs@.len(),
            forall|i: int|
                0 <= i < msgs@.len() ==> self.outcome_matches(msgs@[i]@, #[trigger] outcomes@[i]),
    {
        let mut outcomes: Vec<Outcome> = Vec::new();
        let mut i: usize = 0;
        while i < msgs.len()
            invariant
                i <= msgs@.len(),
                outcomes@.len() == i,
                forall|j: int|
                    0 <= j < i ==> self.outcome_matches(msgs@[j]@, #[trigger] outcomes@[j]),
            decreases msgs@.len() - i,
        {
            let o = self.handle_msg((&msgs[i]).as_str());
            outcomes.push(o);
            i = i + 1;
        }
        outcomes
    }

    /// Law: the outcome owed to a frame depends on the registry only
    /// through the presence of a handler for the frame's own family.
    /// Registering, replacing or leaving out a handler of another family
    /// never affects it; a family without a handler has its frames dropped
    /// silently while every other family is served as before.
    pub proof fn lemma_dispatch_family_isolated(ws1: Self, ws2: Self, m: Seq<char>, o: Outcome)
        requires
            (match route_spec(m) {
                RoutePlan::Deliver(c, p) => ws1.has_handler(family_of(c)) == ws2.has_handler(
                    family_of(c),
                ),
                RoutePlan::DropUnknown => true,
                RoutePlan::DropMalformed => true,
            }),
        ensures
            ws1.outcome_matches(m, o) == ws2.outcome_matches(m, o),
    {
    }

    /// Law: under any registry, the outcome owed to an enveloped frame is
    /// exactly the outcome owed to its payload received directly, under the
    /// same conditions as `lemma_envelope_transparent`.
    pub proof fn lemma_envelope_observable(self, name: Seq<char>, p: Seq<char>, o: Outcome)
        requires
            forall|k: int| 0 <= k < name.len() ==> name[k] != '"',
            !contains_tok(p, data_key()),
            is_family_class(classify_spec(p)),
            forall|i: int|
                0 <= i < 7 ==> (contains_tok(envelope_of(name, p), #[trigger] token_order()[i])
                    <==> contains_tok(p, token_order()[i])),
        ensures
            self.outcome_matches(envelope_of(name, p), o) <==> self.outcome_matches(p, o),
    {
        lemma_envelope_transparent(name, p);
    }

    /// Law: registering a handler for a family replaces the previous one
    /// for that family and leaves every other registration unchanged, so
    /// only the last registration for a family receives subsequent events.
    pub proof fn lemma_registration_replaces(
        ws: Self,
        u1: U,
        u2: U,
        m1: M,
        m2: M,
        d1: D,
        d2: D,
        k1: K,
        k2: K,
    )
        ensures
            ws.spec_set_user_stream(u1).spec_set_user_stream(u2) == ws.spec_set_user_stream(u2),
            ws.spec_set_market(m1).spec_set_market(m2) == ws.spec_set_market(m2),
            ws.spec_set_day_ticker(d1).spec_set_day_ticker(d2) == ws.spec_set_day_ticker(d2),
            ws.spec_set_kline(k1).spec_set_kline(k2) == ws.spec_set_kline(k2),
            ws.spec_set_kline(k1).spec_set_market(m1).has_handler(Family::UserStream)
                == ws.has_handler(Family::UserStream),
            ws.spec_set_kline(k1).spec_set_market(m1).has_handler(Family::DayTicker)
                == ws.has_handler(Family::DayTicker),
    {
    }
}

/// The enveloped form of a payload on the multiplexed endpoint:
/// `{"stream":"<name>","data":<payload>}`.
pub open spec fn envelope_of(name: Seq<char>, p: Seq<char>) -> Seq<char> {
    "{\"stream\":\""@ + name + "\",\"data\":"@ + p + "}"@
}

/// Law: an enveloped frame routes exactly as its payload routes directly,
/// provided the stream name carries no quote and no discriminator token of
/// its own, and the payload classifies as an event family and is not itself
/// envelope-shaped.
pub proof fn lemma_envelope_transparent(name: Seq<char>, p: Seq<char>)
    requires
        forall|k: int| 0 <= k < name.len() ==> name[k] != '"',
        !contains_tok(p, data_key()),
        is_family_class(classify_spec(p)),
        forall|i: int|
            0 <= i < 7 ==> (contains_tok(envelope_of(name, p), #[trigger] token_order()[i])
                <==> contains_tok(p, token_order()[i])),
    ensures
        route_spec(envelope_of(name, p)) == route_spec(p),
{
    let env = envelope_of(name, p);
    let a = "{\"stream\":\""@;
    let b = "\",\"data\":"@;
    let dk = data_key();
    let ln = name.len() as int;
    let lp = p.len() as int;
    reveal_strlit("{\"stream\":\"");
    reveal_strlit("\",\"data\":");
    reveal_strlit("}");
    reveal_strlit("\"data\":");
    reveal_strlit("stream");
    assert(a.len() == 11);
    assert(b.len() == 9);
    assert(dk.len() == 7);
    assert(env.len() == 21 + ln + lp);
    assert forall|j: int| 0 <= j < 11 implies env[j] == a[j] by {}
    assert forall|k: int| 0 <= k < ln implies env[11 + k] == name[k] by {}
    assert forall|k: int| 0 <= k < 9 implies env[11 + ln + k] == b[k] by {}
    assert forall|k: int| 0 <= k < lp implies env[20 + ln + k] == p[k] by {}
    assert(env[20 + ln + lp] == '}');
    // Token-wise, the envelope and the payload agree on the first seven
    // discriminator tokens, so they classify alike.
    assert(token_order()[0] == tok_account());
    assert(token_order()[1] == tok_execution());
    assert(token_order()[2] == tok_agg_trade());
    assert(token_order()[3] == tok_day_ticker());
    assert(token_order()[4] == tok_kline());
    assert(token_order()[5] == tok_partial_book());
    assert(token_order()[6] == tok_depth());
    let c = classify_spec(p);
    assert(classify_spec(env) == c);
    // The envelope carries the `stream` token in its own wrapper text.
    assert(contains_tok(env, tok_stream())) by {
        assert(tok_stream().len() == 6);
        assert forall|k: int| 0 <= k < 6 implies env.subrange(2, 8)[k] == tok_stream()[k] by {
            assert(env.subrange(2, 8)[k] == env[2 + k]);
        }
        assert(env.subrange(2, 8) =~= tok_stream());
        assert(match_at(env, tok_stream(), 2));
    }
    // The envelope's own `"data":` key stands right after the stream name.
    let d = 13 + ln;
    assert(match_at(env, dk, d)) by {
        assert forall|k: int| 0 <= k < 7 implies env.subrange(d, d + 7)[k] == dk[k] by {
            assert(env.subrange(d, d + 7)[k] == env[d + k]);
            assert(env[d + k] == b[2 + k]);
        }
        assert(env.subrange(d, d + 7) =~= dk);
    }
    // And it is the first occurrence: any earlier match would need a quote
    // where the frame has none, or mismatches a later character of the key.
    assert forall|j: int| 0 <= j < d implies !match_at(env, dk, j) by {
        if match_at(env, dk, j) {
            assert(env.subrange(j, j + 7) == dk);
            assert(env.subrange(j, j + 7)[0] == env[j + 0]);
            assert(env.subrange(j, j + 7)[1] == env[j + 1]);
            assert(env.subrange(j, j + 7)[2] == env[j + 2]);
            assert(env.subrange(j, j + 7)[3] == env[j + 3]);
            assert(env.subrange(j, j + 7)[4] == env[j + 4]);
            assert(env.subrange(j, j + 7)[5] == env[j + 5]);
            assert(env.subrange(j, j + 7)[6] == env[j + 6]);
            assert(env[j] == '"');
            assert(env[j + 1] == 'd');
            assert(env[j + 2] == 'a');
            assert(env[j + 3] == 't');
            assert(env[j + 4] == 'a');
            assert(env[j + 5] == '"');
            assert(env[j + 6] == ':');
            if j < 11 {
                assert(j == 1 || j == 8 || j == 10);
                if j == 1 {
                    assert(env[2] == 's');
                } else if j == 8 {
                    assert(env[9] == ':');
                } else {
                    // j == 10: the five characters after the quote would
                    // have to read `data"`, which the name cannot close.
                    if ln > 4 {
                        assert(env[15] == name[4]);
                    } else if ln == 4 {
                        assert(env[16] == b[1]);
                    } else if ln == 3 {
                        assert(env[14] == b[0]);
                    } else if ln == 2 {
                        assert(env[13] == b[0]);
                    } else if ln == 1 {
                        assert(env[12] == b[0]);
                    } else {
                        assert(env[11] == b[0]);
                    }
                }
            } else if j < 11 + ln {
                assert(env[j] == name[j - 11]);
            } else if j == 11 + ln {
                assert(env[j + 1] == b[1]);
            } else {
                assert(j == 12 + ln);
                assert(env[j] == b[1]);
            }
            assert(false);
        }
    }
    lemma_first_match_unique(env, dk, d);
    // The frame's last `}` is its final character, so unwrapping returns
    // exactly the payload.
    let e = 20 + ln + lp;
    assert(last_index_of(env, '}', e));
    lemma_last_index_unique(env, '}', e);
    assert(env.subrange(d + 7, e) =~= p);
    assert(extract_spec(env) == Some(p));
    assert(route_spec(env) == RoutePlan::Deliver(c, p));
    assert(route_spec(p) == RoutePlan::Deliver(c, p));
}

/// The routing owed to every frame of a sequence, in order.
pub open spec fn plans_spec(ms: Seq<Seq<char>>) -> Seq<RoutePlan> {
    Seq::new(ms.len(), |i: int| route_spec(ms[i]))
}

/// Law: routing a prefix of the frame sequence is the prefix of routing the
/// whole sequence. Frames are delivered in source order across all
/// families, and consuming further frames never revises or reorders what
/// was already routed.
pub proof fn lemma_routing_prefix_preserving(ms: Seq<Seq<char>>, n: int)
    requires
        0 <= n <= ms.len(),
    ensures
        plans_spec(ms.take(n)) == plans_spec(ms).take(n),
{
    assert(plans_spec(ms.take(n)) =~= plans_spec(ms).take(n));
}

} // verus!
