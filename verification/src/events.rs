//! Typed events decoded from the exchange's JSON frames.
//!
//! Prices and quantities arrive on the wire as decimal strings and are kept
//! as strings here, exactly as received; counters, identifiers and
//! timestamps are unsigned integers.

use vstd::prelude::*;

verus! {

/// One asset balance inside an account update.
#[derive(Clone, Debug)]
pub struct EventBalance {
    pub asset: String,
    pub free: String,
    pub locked: String,
}

/// Account update (`outboundAccountInfo`).
#[derive(Clone, Debug)]
pub struct AccountUpdateEvent {
    pub event_type: String,
    pub event_time: u64,
    pub maker_commission_rate: u64,
    pub taker_commission_rate: u64,
    pub buyer_commission_rate: u64,
    pub seller_commission_rate: u64,
    pub can_trade: bool,
    pub can_withdraw: bool,
    pub can_deposit: bool,
    pub last_account_update: u64,
    pub balances: Vec<EventBalance>,
}

/// Order or trade report (`executionReport`).
#[derive(Clone, Debug)]
pub struct OrderTradeEvent {
    pub event_type: String,
    pub event_time: u64,
    pub symbol: String,
    pub new_client_order_id: String,
    pub side: String,
    pub order_type: String,
    pub time_in_force: String,
    pub qty: String,
    pub price: String,
    pub execution_type: String,
    pub order_status: String,
    pub order_reject_reason: String,
    pub order_id: u64,
    pub qty_last_filled_trade: String,
    pub accumulated_qty_filled_trades: String,
    pub price_last_filled_trade: String,
    pub commission: String,
    pub commission_asset: Option<String>,
    pub trade_order_time: u64,
    pub trade_id: i64,
}

/// Aggregated trade (`aggTrade`).
#[derive(Clone, Debug)]
pub struct TradesEvent {
    pub event_type: String,
    pub event_time: u64,
    pub symbol: String,
    pub aggregated_trade_id: u64,
    pub price: String,
    pub qty: String,
    pub first_break_trade_id: u64,
    pub last_break_trade_id: u64,
    pub trade_order_time: u64,
    pub is_buyer_maker: bool,
}

/// One 24-hour rolling ticker entry (`24hrTicker`).
#[derive(Clone, Debug)]
pub struct DayTickerEvent {
    pub event_type: String,
    pub event_time: u64,
    pub symbol: String,
    pub price_change: String,
    pub price_change_percent: String,
    pub average_price: String,
    pub prev_close: String,
    pub current_close: String,
    pub current_close_qty: String,
    pub best_bid: String,
    pub best_bid_qty: String,
    pub best_ask: String,
    pub best_ask_qty: String,
    pub open: String,
    pub high: String,
    pub low: String,
    pub volume: String,
    pub quote_volume: String,
    pub open_time: u64,
    pub close_time: u64,
    pub first_trade_id: u64,
    pub last_trade_id: u64,
    pub num_trades: u64,
}

/// The candlestick carried by a kline event.
#[derive(Clone, Debug)]
pub struct Kline {
    pub start_time: u64,
    pub end_time: u64,
    pub symbol: String,
    pub interval: String,
    pub first_trade_id: u64,
    pub last_trade_id: u64,
    pub open: String,
    pub close: String,
    pub high: String,
    pub low: String,
    pub volume: String,
    pub number_of_trades: u64,
    pub is_final_bar: bool,
    pub quote_volume: String,
    pub active_buy_volume: String,
    pub active_volume_buy_quote: String,
}

/// Kline event (`kline`).
#[derive(Clone, Debug)]
pub struct KlineEvent {
    pub event_type: String,
    pub event_time: u64,
    pub symbol: String,
    pub kline: Kline,
}

/// One price level: a price and the quantity resting at it.
#[derive(Clone, Debug)]
pub struct OrderBookLevel {
    pub price: String,
    pub qty: String,
}

/// Depth delta (`depthUpdate`).
#[derive(Clone, Debug)]
pub struct DepthOrderBookEvent {
    pub event_type: String,
    pub event_time: u64,
    pub symbol: String,
    pub first_update_id: u64,
    pub final_update_id: u64,
    pub bids: Vec<OrderBookLevel>,
    pub asks: Vec<OrderBookLevel>,
}

/// Partial order book snapshot (`lastUpdateId`).
#[derive(Clone, Debug)]
pub struct OrderBook {
    pub last_update_id: u64,
    pub bids: Vec<OrderBookLevel>,
    pub asks: Vec<OrderBookLevel>,
}

/// Fatal errors reported by the connection surface.
#[derive(PartialEq, Eq, Structural, Clone, Copy, Debug)]
pub enum WsError {
    /// The composed subscription URL does not parse.
    BadEndpoint,
    /// The transport could not be established.
    Handshake,
    /// A read failed mid-stream.
    Transport,
}

} // verus!
