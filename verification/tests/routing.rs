//! Classification, envelope unwrapping, scanning and URL building.

use binance_ws::classify::{classify, Classification};
use binance_ws::envelope::extract_data;
use binance_ws::scan::{find_sub, rfind_char, contains_sub};
use binance_ws::endpoint::{single_stream_url, multi_stream_url, join_streams};

#[test]
fn classify_each_token() {
    assert_eq!(
        classify("{\"e\":\"outboundAccountInfo\"}"),
        Classification::AccountUpdate
    );
    assert_eq!(classify("{\"e\":\"executionReport\"}"), Classification::OrderTrade);
    assert_eq!(classify("{\"e\":\"aggTrade\"}"), Classification::AggregatedTrade);
    assert_eq!(classify("[{\"e\":\"24hrTicker\"}]"), Classification::DayTickerBatch);
    assert_eq!(classify("{\"e\":\"kline\"}"), Classification::KlineUpdate);
    assert_eq!(classify("{\"lastUpdateId\":12}"), Classification::PartialOrderBook);
    assert_eq!(classify("{\"e\":\"depthUpdate\"}"), Classification::DepthDelta);
    assert_eq!(classify("{\"stream\":\"x\",\"data\":{}}"), Classification::Envelope);
    assert_eq!(classify("{\"e\":\"somethingNew\"}"), Classification::Unknown);
}

#[test]
fn classify_first_token_wins() {
    // Both depth tokens: `lastUpdateId` stands earlier in the fixed order.
    assert_eq!(
        classify("{\"lastUpdateId\":160,\"note\":\"depthUpdate\"}"),
        Classification::PartialOrderBook
    );
    assert_eq!(
        classify("{\"e\":\"depthUpdate\",\"note\":\"lastUpdateId\"}"),
        Classification::PartialOrderBook
    );
    // A kline envelope resolves to the earlier token, not to the envelope.
    assert_eq!(
        classify("{\"stream\":\"bnbusdt@kline_1m\",\"data\":{\"e\":\"kline\"}}"),
        Classification::KlineUpdate
    );
    // The user-stream tokens precede every market token.
    assert_eq!(
        classify("{\"e\":\"executionReport\",\"x\":\"aggTrade\"}"),
        Classification::OrderTrade
    );
}

#[test]
fn extract_envelope_payload() {
    let frame = "{\"stream\":\"bnbusdt@aggTrade\",\"data\":{\"e\":\"aggTrade\",\"a\":42}}";
    assert_eq!(extract_data(frame), Some("{\"e\":\"aggTrade\",\"a\":42}"));
}

#[test]
fn extract_requires_envelope_shape() {
    assert_eq!(extract_data("{\"stream\":\"x\"}"), None);
    assert_eq!(extract_data("\"data\": no brace"), None);
}

#[test]
fn find_first_occurrence() {
    assert_eq!(find_sub("abcabc", "bc"), Some(1));
    assert_eq!(find_sub("abcabc", "cab"), Some(2));
    assert_eq!(find_sub("abcabc", "zz"), None);
    assert_eq!(find_sub("abc", ""), Some(0));
    assert!(contains_sub("hello world", "lo w"));
    assert!(!contains_sub("hello world", "low"));
}

#[test]
fn rfind_last_occurrence() {
    assert_eq!(rfind_char("{a}{b}", '}'), Some(5));
    assert_eq!(rfind_char("abc", '}'), None);
}

#[test]
fn single_stream_url_concatenates() {
    let u = single_stream_url("ethbtc@kline_1m");
    assert_eq!(u, "wss://stream.binance.com:9443/ws/ethbtc@kline_1m");
}

#[test]
fn multi_stream_url_joins_with_slash() {
    let names = vec![
        String::from("bnbusdt@aggTrade"),
        String::from("ethbtc@kline_1m"),
        String::from("ltcbtc@depth"),
    ];
    let u = multi_stream_url(&names);
    assert_eq!(
        u,
        "wss://stream.binance.com:9443/stream?streams=bnbusdt@aggTrade/ethbtc@kline_1m/ltcbtc@depth"
    );
    assert_eq!(join_streams(&vec![]), "");
    assert_eq!(join_streams(&vec![String::from("solo")]), "solo");
}
