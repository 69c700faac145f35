//! End-to-end dispatch scenarios with recording handlers.

use std::cell::RefCell;
use std::rc::Rc;

use binance_ws::classify::{Family, Classification};
use binance_ws::dispatch::{
    WebSockets, UserStreamEventHandler, MarketEventHandler, DayTickerEventHandler,
    KlineEventHandler, Outcome, DecodedEvent, ConnState,
};
use binance_ws::events::{
    AccountUpdateEvent, OrderTradeEvent, TradesEvent, DayTickerEvent, KlineEvent,
    DepthOrderBookEvent, OrderBook,
};

type Log = Rc<RefCell<Vec<String>>>;

struct RecUser {
    log: Log,
}

impl UserStreamEventHandler for RecUser {
    fn account_update_handler(&self, event: &AccountUpdateEvent) {
        self.log.borrow_mut().push(format!(
            "account_update:{}:{}:{}",
            event.event_time,
            event.balances.len(),
            event.balances[0].free
        ));
    }

    fn order_trade_handler(&self, event: &OrderTradeEvent) {
        self.log.borrow_mut().push(format!(
            "order_trade:{}:{}:{}",
            event.order_id, event.side, event.trade_id
        ));
    }
}

struct RecMarket {
    log: Log,
}

impl MarketEventHandler for RecMarket {
    fn aggregated_trades_handler(&self, event: &TradesEvent) {
        self.log.borrow_mut().push(format!(
            "agg_trade:{}:{}:{}",
            event.aggregated_trade_id, event.price, event.qty
        ));
    }

    fn depth_orderbook_handler(&self, event: &DepthOrderBookEvent) {
        self.log.borrow_mut().push(format!(
            "depth:{}:{}:{}",
            event.first_update_id,
            event.final_update_id,
            event.bids.len()
        ));
    }

    fn partial_orderbook_handler(&self, order_book: &OrderBook) {
        self.log.borrow_mut().push(format!(
            "partial_book:{}:{}:{}",
            order_book.last_update_id,
            order_book.bids.len(),
            order_book.asks.len()
        ));
    }
}

struct RecTicker {
    log: Log,
}

impl DayTickerEventHandler for RecTicker {
    fn day_ticker_handler(&self, event: &[DayTickerEvent]) {
        let symbols: Vec<String> = event.iter().map(|e| e.symbol.clone()).collect();
        self.log
            .borrow_mut()
            .push(format!("day_ticker:{}:{}", event.len(), symbols.join(",")));
    }
}

struct RecKline {
    log: Log,
}

impl KlineEventHandler for RecKline {
    fn kline_handler(&self, event: &KlineEvent) {
        self.log.borrow_mut().push(format!(
            "kline:{}:{}:{}:{}:{}",
            event.event_time,
            event.symbol,
            event.kline.start_time,
            event.kline.open,
            event.kline.is_final_bar
        ));
    }
}

type Ws = WebSockets<RecUser, RecMarket, RecTicker, RecKline>;

fn rig() -> (Ws, Log) {
    let log: Log = Rc::new(RefCell::new(Vec::new()));
    let mut ws: Ws = WebSockets::new();
    ws.add_user_stream_handler(RecUser { log: log.clone() });
    ws.add_market_handler(RecMarket { log: log.clone() });
    ws.add_day_ticker_handler(RecTicker { log: log.clone() });
    ws.add_kline_handler(RecKline { log: log.clone() });
    (ws, log)
}

const KLINE_FRAME: &str = "{\"e\":\"kline\",\"E\":123,\"s\":\"BNBUSDT\",\"k\":{\"t\":1508002,\"T\":1508003,\"s\":\"BNBUSDT\",\"i\":\"1m\",\"f\":100,\"L\":200,\"o\":\"0.0010\",\"c\":\"0.0020\",\"h\":\"0.0025\",\"l\":\"0.0005\",\"v\":\"1000\",\"n\":100,\"x\":false,\"q\":\"1.0000\",\"V\":\"500\",\"Q\":\"0.500\"}}";

const AGG_TRADE_FRAME: &str = "{\"e\":\"aggTrade\",\"E\":1,\"s\":\"BNBUSDT\",\"a\":42,\"p\":\"0.001\",\"q\":\"100\",\"f\":100,\"l\":105,\"T\":123456785,\"m\":true}";

const ACCOUNT_FRAME: &str = "{\"e\":\"outboundAccountInfo\",\"E\":1499405658849,\"m\":0,\"t\":0,\"b\":0,\"s\":0,\"T\":true,\"W\":true,\"D\":true,\"u\":1499405658848,\"B\":[{\"a\":\"LTC\",\"f\":\"17366.18\",\"l\":\"0.00\"}]}";

const EXECUTION_FRAME: &str = "{\"e\":\"executionReport\",\"E\":2,\"s\":\"ETHBTC\",\"c\":\"oid1\",\"S\":\"BUY\",\"o\":\"LIMIT\",\"f\":\"GTC\",\"q\":\"1.00000000\",\"p\":\"0.10264410\",\"x\":\"NEW\",\"X\":\"NEW\",\"r\":\"NONE\",\"i\":4293153,\"l\":\"0.00000000\",\"z\":\"0.00000000\",\"L\":\"0.00000000\",\"n\":\"0\",\"N\":null,\"T\":1499405658657,\"t\":-1}";

const DEPTH_FRAME: &str = "{\"e\":\"depthUpdate\",\"E\":123456789,\"s\":\"BNBBTC\",\"U\":157,\"u\":160,\"b\":[[\"0.0024\",\"10\"]],\"a\":[[\"0.0026\",\"100\"]]}";

const TICKER_FRAME: &str = "[{\"e\":\"24hrTicker\",\"E\":123456789,\"s\":\"BNBBTC\",\"p\":\"0.0015\",\"P\":\"250.00\",\"w\":\"0.0018\",\"x\":\"0.0009\",\"c\":\"0.0025\",\"Q\":\"10\",\"b\":\"0.0024\",\"B\":\"10\",\"a\":\"0.0026\",\"A\":\"100\",\"o\":\"0.0010\",\"h\":\"0.0025\",\"l\":\"0.0010\",\"v\":\"10000\",\"q\":\"18\",\"O\":0,\"C\":86400000,\"F\":0,\"L\":18150,\"n\":18151}]";

#[test]
fn s1_single_stream_kline() {
    let (ws, log) = rig();
    let o = ws.handle_msg(KLINE_FRAME);
    match o {
        Outcome::Delivered(Classification::KlineUpdate, DecodedEvent::KlineEv(ev)) => {
            assert_eq!(ev.event_time, 123);
            assert_eq!(ev.kline.open, "0.0010");
            assert_eq!(ev.kline.number_of_trades, 100);
        }
        other => panic!("unexpected outcome: {:?}", other),
    }
    assert_eq!(
        *log.borrow(),
        ["kline:123:BNBUSDT:1508002:0.0010:false"]
    );
}

#[test]
fn s2_enveloped_agg_trade() {
    let (ws, log) = rig();
    let frame = format!(
        "{{\"stream\":\"bnbusdt@aggTrade\",\"data\":{}}}",
        AGG_TRADE_FRAME
    );
    let o = ws.handle_msg(&frame);
    match o {
        Outcome::Delivered(Classification::AggregatedTrade, DecodedEvent::Trades(t)) => {
            assert_eq!(t.event_time, 1);
            assert_eq!(t.symbol, "BNBUSDT");
            assert_eq!(t.aggregated_trade_id, 42);
        }
        other => panic!("unexpected outcome: {:?}", other),
    }
    assert_eq!(*log.borrow(), ["agg_trade:42:0.001:100"]);
}

#[test]
fn s3_ordering() {
    let (ws, log) = rig();
    let frames = vec![
        String::from(ACCOUNT_FRAME),
        String::from(EXECUTION_FRAME),
        String::from(AGG_TRADE_FRAME),
    ];
    let outcomes = ws.dispatch_all(&frames);
    assert_eq!(outcomes.len(), 3);
    assert!(matches!(
        outcomes[0],
        Outcome::Delivered(Classification::AccountUpdate, DecodedEvent::Account(_))
    ));
    assert!(matches!(
        outcomes[1],
        Outcome::Delivered(Classification::OrderTrade, DecodedEvent::Order(_))
    ));
    assert!(matches!(
        outcomes[2],
        Outcome::Delivered(Classification::AggregatedTrade, DecodedEvent::Trades(_))
    ));
    assert_eq!(
        *log.borrow(),
        [
            "account_update:1499405658849:1:17366.18",
            "order_trade:4293153:BUY:-1",
            "agg_trade:42:0.001:100",
        ]
    );
}

#[test]
fn s4_missing_handler() {
    // Market handler only: the kline frame is skipped, the loop goes on.
    let log: Log = Rc::new(RefCell::new(Vec::new()));
    let mut ws: Ws = WebSockets::new();
    ws.add_market_handler(RecMarket { log: log.clone() });
    let o1 = ws.handle_msg(KLINE_FRAME);
    assert!(matches!(o1, Outcome::NoHandler(Family::Kline)));
    let o2 = ws.handle_msg(AGG_TRADE_FRAME);
    assert!(matches!(
        o2,
        Outcome::Delivered(Classification::AggregatedTrade, DecodedEvent::Trades(_))
    ));
    assert_eq!(*log.borrow(), ["agg_trade:42:0.001:100"]);
}

#[test]
fn s5_decode_failure() {
    let (ws, log) = rig();
    let o1 = ws.handle_msg("{\"e\":\"kline\",\"k\": not-an-object}");
    assert!(matches!(o1, Outcome::DecodeFailed(Classification::KlineUpdate)));
    assert!(log.borrow().is_empty());
    // A kline whose payload parses but misses the schema also fails.
    let o2 = ws.handle_msg("{\"e\":\"kline\",\"E\":1,\"s\":\"X\",\"k\":5}");
    assert!(matches!(o2, Outcome::DecodeFailed(Classification::KlineUpdate)));
    assert!(log.borrow().is_empty());
    // The next well-formed frame is delivered normally.
    let o3 = ws.handle_msg(KLINE_FRAME);
    assert!(matches!(
        o3,
        Outcome::Delivered(Classification::KlineUpdate, DecodedEvent::KlineEv(_))
    ));
    assert_eq!(log.borrow().len(), 1);
}

#[test]
fn dispatch_all_continues_after_bad_frame() {
    let (ws, log) = rig();
    let frames = vec![
        String::from("{\"e\":\"kline\",\"k\": not-an-object}"),
        String::from("{\"e\":\"somethingNew\"}"),
        String::from(KLINE_FRAME),
    ];
    let outcomes = ws.dispatch_all(&frames);
    assert_eq!(outcomes.len(), 3);
    assert!(matches!(outcomes[0], Outcome::DecodeFailed(Classification::KlineUpdate)));
    assert!(matches!(outcomes[1], Outcome::Ignored));
    assert!(matches!(
        outcomes[2],
        Outcome::Delivered(Classification::KlineUpdate, DecodedEvent::KlineEv(_))
    ));
    assert_eq!(log.borrow().len(), 1);
}

#[test]
fn s6_partial_vs_delta() {
    // Both depth tokens in one frame: `lastUpdateId` stands earlier in the
    // classification order, so the partial book handler is invoked.
    let (ws, log) = rig();
    let frame = "{\"lastUpdateId\":160,\"bids\":[[\"0.0024\",\"10\"]],\"asks\":[[\"0.0026\",\"100\"]],\"note\":\"depthUpdate\"}";
    let o = ws.handle_msg(frame);
    match o {
        Outcome::Delivered(Classification::PartialOrderBook, DecodedEvent::Partial(ob)) => {
            assert_eq!(ob.last_update_id, 160);
            assert_eq!(ob.bids.len(), 1);
        }
        other => panic!("unexpected outcome: {:?}", other),
    }
    assert_eq!(*log.borrow(), ["partial_book:160:1:1"]);
}

#[test]
fn depth_update_delivered() {
    let (ws, log) = rig();
    let o = ws.handle_msg(DEPTH_FRAME);
    match o {
        Outcome::Delivered(Classification::DepthDelta, DecodedEvent::Depth(ev)) => {
            assert_eq!(ev.first_update_id, 157);
            assert_eq!(ev.bids[0].price, "0.0024");
        }
        other => panic!("unexpected outcome: {:?}", other),
    }
    assert_eq!(*log.borrow(), ["depth:157:160:1"]);
}

#[test]
fn day_ticker_batch_delivered() {
    let (ws, log) = rig();
    let o = ws.handle_msg(TICKER_FRAME);
    match o {
        Outcome::Delivered(Classification::DayTickerBatch, DecodedEvent::Tickers(v)) => {
            assert_eq!(v.len(), 1);
            assert_eq!(v[0].symbol, "BNBBTC");
            assert_eq!(v[0].num_trades, 18151);
        }
        other => panic!("unexpected outcome: {:?}", other),
    }
    assert_eq!(*log.borrow(), ["day_ticker:1:BNBBTC"]);
}

#[test]
fn handler_replacement_only_last_receives() {
    let log1: Log = Rc::new(RefCell::new(Vec::new()));
    let log2: Log = Rc::new(RefCell::new(Vec::new()));
    let mut ws: Ws = WebSockets::new();
    ws.add_kline_handler(RecKline { log: log1.clone() });
    ws.add_kline_handler(RecKline { log: log2.clone() });
    let o = ws.handle_msg(KLINE_FRAME);
    assert!(matches!(
        o,
        Outcome::Delivered(Classification::KlineUpdate, DecodedEvent::KlineEv(_))
    ));
    assert!(log1.borrow().is_empty());
    assert_eq!(log2.borrow().len(), 1);
}

#[test]
fn unregistered_family_does_not_affect_others() {
    // Kline handler only: market frames are skipped silently, klines flow.
    let log: Log = Rc::new(RefCell::new(Vec::new()));
    let mut ws: Ws = WebSockets::new();
    ws.add_kline_handler(RecKline { log: log.clone() });
    assert!(matches!(ws.handle_msg(DEPTH_FRAME), Outcome::NoHandler(Family::Market)));
    assert!(matches!(
        ws.handle_msg(KLINE_FRAME),
        Outcome::Delivered(Classification::KlineUpdate, DecodedEvent::KlineEv(_))
    ));
    assert_eq!(log.borrow().len(), 1);
}

#[test]
fn unknown_frame_ignored() {
    let (ws, log) = rig();
    assert!(matches!(ws.handle_msg("{\"e\":\"somethingNew\"}"), Outcome::Ignored));
    assert!(log.borrow().is_empty());
}

#[test]
fn envelope_without_payload_is_malformed() {
    let (ws, log) = rig();
    assert!(matches!(ws.handle_msg("{\"stream\":\"x\"}"), Outcome::Malformed));
    assert!(log.borrow().is_empty());
}

#[test]
fn envelope_of_unknown_payload_ignored() {
    let (ws, log) = rig();
    let o = ws.handle_msg("{\"stream\":\"x\",\"data\":{\"e\":\"later\"}}");
    assert!(matches!(o, Outcome::Ignored));
    assert!(log.borrow().is_empty());
}

#[test]
fn direct_frame_with_data_member_not_unwrapped() {
    // Unwrapping needs the envelope's shape: both the `"data":` key and the
    // `stream` token. A direct frame with a member named `data` is decoded
    // whole.
    let (ws, log) = rig();
    let frame = "{\"e\":\"aggTrade\",\"E\":9,\"s\":\"BNBUSDT\",\"a\":7,\"p\":\"0.002\",\"q\":\"5\",\"f\":1,\"l\":2,\"T\":3,\"m\":false,\"data\":7}";
    let o = ws.handle_msg(frame);
    match o {
        Outcome::Delivered(Classification::AggregatedTrade, DecodedEvent::Trades(t)) => {
            assert_eq!(t.aggregated_trade_id, 7);
        }
        other => panic!("unexpected outcome: {:?}", other),
    }
    assert_eq!(*log.borrow(), ["agg_trade:7:0.002:5"]);
}

#[test]
fn envelope_unwraps_a_single_level() {
    // The inner payload is itself an envelope: one unwrapping is performed,
    // the inner envelope is not recursed into.
    let (ws, log) = rig();
    let o = ws.handle_msg("{\"stream\":\"a\",\"data\":{\"stream\":\"b\"}}");
    assert!(matches!(o, Outcome::Ignored));
    assert!(log.borrow().is_empty());
}

#[test]
fn connect_builds_single_stream_url() {
    let mut ws: Ws = WebSockets::new();
    assert_eq!(ws.state, ConnState::Disconnected);
    let r = ws.connect("ethbtc@trade");
    assert_eq!(
        r,
        Ok(String::from("wss://stream.binance.com:9443/ws/ethbtc@trade"))
    );
    assert_eq!(ws.state, ConnState::Connected);
}

#[test]
fn connect_multiple_builds_multiplexed_url() {
    let mut ws: Ws = WebSockets::new();
    let names = vec![String::from("bnbusdt@aggTrade"), String::from("ethbtc@trade")];
    let r = ws.connect_multiple_streams(&names);
    assert_eq!(
        r,
        Ok(String::from(
            "wss://stream.binance.com:9443/stream?streams=bnbusdt@aggTrade/ethbtc@trade"
        ))
    );
    assert_eq!(ws.state, ConnState::Connected);
}
