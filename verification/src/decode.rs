//! Schema decoders: one per event variant, fully verified over `JsonDoc`.
//!
//! Each decoder parses the payload once (the trusted `parse_doc`) and then
//! reads the variant's documented fields out of the document. The contracts
//! pin the result exactly: the decoder succeeds precisely when the payload
//! is well-formed JSON whose document carries the schema's fields, and the
//! decoded event's fields are the document's values. Unknown members are
//! tolerated; a missing or wrongly-typed member fails the decode.

use vstd::prelude::*;
use crate::events::{
    AccountUpdateEvent, EventBalance, OrderTradeEvent, TradesEvent, DayTickerEvent, Kline,
    KlineEvent, OrderBookLevel, DepthOrderBookEvent, OrderBook,
};
use crate::jsonval::{
    JsonDoc, json_well_formed, json_doc_of, parse_doc, doc_field, doc_item, doc_items, doc_str,
    fld_str, fld_u64, fld_i64, fld_bool, fld_arr, doc_get, doc_as_string, doc_as_array, get_str,
    get_u64, get_i64, get_bool, get_arr,
};

verus! {

/// The aggregated trade carried by a document, when the schema fits.
pub open spec fn trades_of_doc(d: JsonDoc) -> Option<TradesEvent> {
    let e = fld_str(d, "e"@);
    let et = fld_u64(d, "E"@);
    let s = fld_str(d, "s"@);
    let a = fld_u64(d, "a"@);
    let p = fld_str(d, "p"@);
    let q = fld_str(d, "q"@);
    let f = fld_u64(d, "f"@);
    let l = fld_u64(d, "l"@);
    let t = fld_u64(d, "T"@);
    let m = fld_bool(d, "m"@);
    if e is Some && et is Some && s is Some && a is Some && p is Some && q is Some && f is Some
        && l is Some && t is Some && m is Some {
        Some(TradesEvent {
            event_type: e.unwrap(),
            event_time: et.unwrap(),
            symbol: s.unwrap(),
            aggregated_trade_id: a.unwrap(),
            price: p.unwrap(),
            qty: q.unwrap(),
            first_break_trade_id: f.unwrap(),
            last_break_trade_id: l.unwrap(),
            trade_order_time: t.unwrap(),
            is_buyer_maker: m.unwrap(),
        })
    } else {
        None
    }
}

/// Decode an `aggTrade` payload.
pub(crate) fn decode_trades(p: &str) -> (r: Option<TradesEvent>)
    ensures
        r == (if json_well_formed(p@) {
            trades_of_doc(json_doc_of(p@))
        } else {
            None
        }),
{
    let d = match parse_doc(p) {
        Some(d) => d,
        None => {
            return None;
        },
    };
    let event_type = match get_str(&d, "e") {
        Some(x) => x,
        None => {
            return None;
        },
    };
    let event_time = match get_u64(&d, "E") {
        Some(x) => x,
        None => {
            return None;
        },
    };
    let symbol = match get_str(&d, "s") {
        Some(x) => x,
        None => {
            return None;
        },
    };
    let aggregated_trade_id = match get_u64(&d, "a") {
        Some(x) => x,
        None => {
            return None;
        },
    };
    let price = match get_str(&d, "p") {
        Some(x) => x,
        None => {
            return None;
        },
    };
    let qty = match get_str(&d, "q") {
        Some(x) => x,
        None => {
            return None;
        },
    };
    let first_break_trade_id = match get_u64(&d, "f") {
        Some(x) => x,
        None => {
            return None;
        },
    };
    let last_break_trade_id = match get_u64(&d, "l") {
        Some(x) => x,
        None => {
            return None;
        },
    };
    let trade_order_time = match get_u64(&d, "T") {
        Some(x) => x,
        None => {
            return None;
        },
    };
    let is_buyer_maker = match get_bool(&d, "m") {
        Some(x) => x,
        None => {
            return None;
        },
    };
    Some(TradesEvent {
        event_type,
        event_time,
        symbol,
        aggregated_trade_id,
        price,
        qty,
        first_break_trade_id,
        last_break_trade_id,
        trade_order_time,
        is_buyer_maker,
    })
}

/// The order/trade report carried by a document, when the schema fits. The
/// commission asset may be JSON `null`; every other field is required.
pub open spec fn order_trade_of_doc(d: JsonDoc) -> Option<OrderTradeEvent> {
    let e = fld_str(d, "e"@);
    let et = fld_u64(d, "E"@);
    let s = fld_str(d, "s"@);
    let c = fld_str(d, "c"@);
    let side = fld_str(d, "S"@);
    let o = fld_str(d, "o"@);
    let f = fld_str(d, "f"@);
    let q = fld_str(d, "q"@);
    let p = fld_str(d, "p"@);
    let x = fld_str(d, "x"@);
    let xs = fld_str(d, "X"@);
    let rr = fld_str(d, "r"@);
    let i = fld_u64(d, "i"@);
    let l = fld_str(d, "l"@);
    let z = fld_str(d, "z"@);
    let lp = fld_str(d, "L"@);
    let n = fld_str(d, "n"@);
    let t = fld_u64(d, "T"@);
    let tid = fld_i64(d, "t"@);
    if e is Some && et is Some && s is Some && c is Some && side is Some && o is Some && f is Some
        && q is Some && p is Some && x is Some && xs is Some && rr is Some && i is Some
        && l is Some && z is Some && lp is Some && n is Some && t is Some && tid is Some {
        Some(OrderTradeEvent {
            event_type: e.unwrap(),
            event_time: et.unwrap(),
            symbol: s.unwrap(),
            new_client_order_id: c.unwrap(),
            side: side.unwrap(),
            order_type: o.unwrap(),
            time_in_force: f.unwrap(),
            qty: q.unwrap(),
            price: p.unwrap(),
            execution_type: x.unwrap(),
            order_status: xs.unwrap(),
            order_reject_reason: rr.unwrap(),
            order_id: i.unwrap(),
            qty_last_filled_trade: l.unwrap(),
            accumulated_qty_filled_trades: z.unwrap(),
            price_last_filled_trade: lp.unwrap(),
            commission: n.unwrap(),
            commission_asset: fld_str(d, "N"@),
            trade_order_time: t.unwrap(),
            trade_id: tid.unwrap(),
        })
    } else {
        None
    }
}

/// Decode an `executionReport` payload.
pub(crate) fn decode_order_trade(p: &str) -> (r: Option<OrderTradeEvent>)
    ensures
        r == (if json_well_formed(p@) {
            order_trade_of_doc(json_doc_of(p@))
        } else {
            None
        }),
{
    let d = match parse_doc(p) {
        Some(d) => d,
        None => {
            return None;
        },
    };
    let event_type = match get_str(&d, "e") {
        Some(x) => x,
        None => {
            return None;
        },
    };
    let event_time = match get_u64(&d, "E") {
        Some(x) => x,
        None => {
            return None;
        },
    };
    let symbol = match get_str(&d, "s") {
        Some(x) => x,
        None => {
            return None;
        },
    };
    let new_client_order_id = match get_str(&d, "c") {
        Some(x) => x,
        None => {
            return None;
        },
    };
    let side = match get_str(&d, "S") {
        Some(x) => x,
        None => {
            return None;
        },
    };
    let order_type = match get_str(&d, "o") {
        Some(x) => x,
        None => {
            return None;
        },
    };
    let time_in_force = match get_str(&d, "f") {
        Some(x) => x,
        None => {
            return None;
        },
    };
    let qty = match get_str(&d, "q") {
        Some(x) => x,
        None => {
            return None;
        },
    };
    let price = match get_str(&d, "p") {
        Some(x) => x,
        None => {
            return None;
        },
    };
    let execution_type = match get_str(&d, "x") {
        Some(x) => x,
        None => {
            return None;
        },
    };
    let order_status = match get_str(&d, "X") {
        Some(x) => x,
        None => {
            return None;
        },
    };
    let order_reject_reason = match get_str(&d, "r") {
        Some(x) => x,
        None => {
            return None;
        },
    };
    let order_id = match get_u64(&d, "i") {
        Some(x) => x,
        None => {
            return None;
        },
    };
    let qty_last_filled_trade = match get_str(&d, "l") {
        Some(x) => x,
        None => {
            return None;
        },
    };
    let accumulated_qty_filled_trades = match get_str(&d, "z") {
        Some(x) => x,
        None => {
            return None;
        },
    };
    let price_last_filled_trade = match get_str(&d, "L") {
        Some(x) => x,
        None => {
            return None;
        },
    };
    let commission = match get_str(&d, "n") {
        Some(x) => x,
        None => {
            return None;
        },
    };
    let commission_asset = get_str(&d, "N");
    let trade_order_time = match get_u64(&d, "T") {
        Some(x) => x,
        None => {
            return None;
        },
    };
    let trade_id = match get_i64(&d, "t") {
        Some(x) => x,
        None => {
            return None;
        },
    };
    Some(OrderTradeEvent {
        event_type,
        event_time,
        symbol,
        new_client_order_id,
        side,
        order_type,
        time_in_force,
        qty,
        price,
        execution_type,
        order_status,
        order_reject_reason,
        order_id,
        qty_last_filled_trade,
        accumulated_qty_filled_trades,
        price_last_filled_trade,
        commission,
        commission_asset,
        trade_order_time,
        trade_id,
    })
}

/// The candlestick carried by the `k` member, when the schema fits.
pub open spec fn kline_of_kdoc(k: JsonDoc) -> Option<Kline> {
    let t = fld_u64(k, "t"@);
    let tt = fld_u64(k, "T"@);
    let s = fld_str(k, "s"@);
    let i = fld_str(k, "i"@);
    let f = fld_u64(k, "f"@);
    let ll = fld_u64(k, "L"@);
    let o = fld_str(k, "o"@);
    let c = fld_str(k, "c"@);
    let h = fld_str(k, "h"@);
    let l = fld_str(k, "l"@);
    let v = fld_str(k, "v"@);
    let n = fld_u64(k, "n"@);
    let x = fld_bool(k, "x"@);
    let q = fld_str(k, "q"@);
    let av = fld_str(k, "V"@);
    let aq = fld_str(k, "Q"@);
    if t is Some && tt is Some && s is Some && i is Some && f is Some && ll is Some && o is Some
        && c is Some && h is Some && l is Some && v is Some && n is Some && x is Some && q is Some
        && av is Some && aq is Some {
        Some(Kline {
            start_time: t.unwrap(),
            end_time: tt.unwrap(),
            symbol: s.unwrap(),
            interval: i.unwrap(),
            first_trade_id: f.unwrap(),
            last_trade_id: ll.unwrap(),
            open: o.unwrap(),
            close: c.unwrap(),
            high: h.unwrap(),
            low: l.unwrap(),
            volume: v.unwrap(),
            number_of_trades: n.unwrap(),
            is_final_bar: x.unwrap(),
            quote_volume: q.unwrap(),
            active_buy_volume: av.unwrap(),
            active_volume_buy_quote: aq.unwrap(),
        })
    } else {
        None
    }
}

/// The kline event carried by a document, when the schema fits.
pub open spec fn kline_of_doc(d: JsonDoc) -> Option<KlineEvent> {
    let e = fld_str(d, "e"@);
    let et = fld_u64(d, "E"@);
    let s = fld_str(d, "s"@);
    let k = doc_field(d, "k"@);
    if e is Some && et is Some && s is Some && k is Some {
        match kline_of_kdoc(k.unwrap()) {
            Some(kl) => Some(KlineEvent {
                event_type: e.unwrap(),
                event_time: et.unwrap(),
                symbol: s.unwrap(),
                kline: kl,
            }),
            None => None,
        }
    } else {
        None
    }
}

/// Decode the candlestick member of a kline payload.
fn kline_from_kdoc(k: &JsonDoc) -> (r: Option<Kline>)
    ensures
        r == kline_of_kdoc(*k),
{
    let start_time = match get_u64(k, "t") {
        Some(x) => x,
        None => {
            return None;
        },
    };
    let end_time = match get_u64(k, "T") {
        Some(x) => x,
        None => {
            return None;
        },
    };
    let symbol = match get_str(k, "s") {
        Some(x) => x,
        None => {
            return None;
        },
    };
    let interval = match get_str(k, "i") {
        Some(x) => x,
        None => {
            return None;
        },
    };
    let first_trade_id = match get_u64(k, "f") {
        Some(x) => x,
        None => {
            return None;
        },
    };
    let last_trade_id = match get_u64(k, "L") {
        Some(x) => x,
        None => {
            return None;
        },
    };
    let open = match get_str(k, "o") {
        Some(x) => x,
        None => {
            return None;
        },
    };
    let close = match get_str(k, "c") {
        Some(x) => x,
        None => {
            return None;
        },
    };
    let high = match get_str(k, "h") {
        Some(x) => x,
        None => {
            return None;
        },
    };
    let low = match get_str(k, "l") {
        Some(x) => x,
        None => {
            return None;
        },
    };
    let volume = match get_str(k, "v") {
        Some(x) => x,
        None => {
            return None;
        },
    };
    let number_of_trades = match get_u64(k, "n") {
        Some(x) => x,
        None => {
            return None;
        },
    };
    let is_final_bar = match get_bool(k, "x") {
        Some(x) => x,
        None => {
            return None;
        },
    };
    let quote_volume = match get_str(k, "q") {
        Some(x) => x,
        None => {
            return None;
        },
    };
    let active_buy_volume = match get_str(k, "V") {
        Some(x) => x,
        None => {
            return None;
        },
    };
    let active_volume_buy_quote = match get_str(k, "Q") {
        Some(x) => x,
        None => {
            return None;
        },
    };
    Some(Kline {
        start_time,
        end_time,
        symbol,
        interval,
        first_trade_id,
        last_trade_id,
        open,
        close,
        high,
        low,
        volume,
        number_of_trades,
        is_final_bar,
        quote_volume,
        active_buy_volume,
        active_volume_buy_quote,
    })
}

/// Decode a `kline` payload.
pub(crate) fn decode_kline(p: &str) -> (r: Option<KlineEvent>)
    ensures
        r == (if json_well_formed(p@) {
            kline_of_doc(json_doc_of(p@))
        } else {
            None
        }),
{
    let d = match parse_doc(p) {
        Some(d) => d,
        None => {
            return None;
        },
    };
    let event_type = match get_str(&d, "e") {
        Some(x) => x,
        None => {
            return None;
        },
    };
    let event_time = match get_u64(&d, "E") {
        Some(x) => x,
        None => {
            return None;
        },
    };
    let symbol = match get_str(&d, "s") {
        Some(x) => x,
        None => {
            return None;
        },
    };
    let k = match doc_get(&d, "k") {
        Some(x) => x,
        None => {
            return None;
        },
    };
    let kline = match kline_from_kdoc(k) {
        Some(x) => x,
        None => {
            return None;
        },
    };
    Some(KlineEvent { event_type, event_time, symbol, kline })
}

/// Whether one balance entry of an account update fits the schema.
pub open spec fn balance_decodes(d: JsonDoc) -> bool {
    fld_str(d, "a"@) is Some && fld_str(d, "f"@) is Some && fld_str(d, "l"@) is Some
}

/// Whether `b` is the balance entry a document carries.
pub open spec fn balance_matches(d: JsonDoc, b: EventBalance) -> bool {
    &&& fld_str(d, "a"@) == Some(b.asset)
    &&& fld_str(d, "f"@) == Some(b.free)
    &&& fld_str(d, "l"@) == Some(b.locked)
}

/// Whether a document fits the `outboundAccountInfo` schema.
pub open spec fn account_decodes(d: JsonDoc) -> bool {
    &&& fld_str(d, "e"@) is Some
    &&& fld_u64(d, "E"@) is Some
    &&& fld_u64(d, "m"@) is Some
    &&& fld_u64(d, "t"@) is Some
    &&& fld_u64(d, "b"@) is Some
    &&& fld_u64(d, "s"@) is Some
    &&& fld_bool(d, "T"@) is Some
    &&& fld_bool(d, "W"@) is Some
    &&& fld_bool(d, "D"@) is Some
    &&& fld_u64(d, "u"@) is Some
    &&& fld_arr(d, "B"@) is Some
    &&& (forall|i: int|
        0 <= i < fld_arr(d, "B"@).unwrap().len() ==> balance_decodes(
            #[trigger] fld_arr(d, "B"@).unwrap()[i],
        ))
}

/// Whether `ev` is the account update a document carries: every scalar field
/// is the document's value, and the balances are the `B` array's entries,
/// complete and in array order.
pub open spec fn account_matches(d: JsonDoc, ev: AccountUpdateEvent) -> bool {
    &&& fld_str(d, "e"@) == Some(ev.event_type)
    &&& fld_u64(d, "E"@) == Some(ev.event_time)
    &&& fld_u64(d, "m"@) == Some(ev.maker_commission_rate)
    &&& fld_u64(d, "t"@) == Some(ev.taker_commission_rate)
    &&& fld_u64(d, "b"@) == Some(ev.buyer_commission_rate)
    &&& fld_u64(d, "s"@) == Some(ev.seller_commission_rate)
    &&& fld_bool(d, "T"@) == Some(ev.can_trade)
    &&& fld_bool(d, "W"@) == Some(ev.can_withdraw)
    &&& fld_bool(d, "D"@) == Some(ev.can_deposit)
    &&& fld_u64(d, "u"@) == Some(ev.last_account_update)
    &&& fld_arr(d, "B"@) is Some
    &&& ev.balances@.len() == fld_arr(d, "B"@).unwrap().len()
    &&& (forall|i: int|
        0 <= i < ev.balances@.len() ==> balance_matches(
            #[trigger] fld_arr(d, "B"@).unwrap()[i],
            ev.balances@[i],
        ))
}

/// Decode an `outboundAccountInfo` payload.
pub(crate) fn decode_account_update(p: &str) -> (r: Option<AccountUpdateEvent>)
    ensures
        r is Some <==> json_well_formed(p@) && account_decodes(json_doc_of(p@)),
        r matches Some(ev) ==> account_matches(json_doc_of(p@), ev),
{
    let d = match parse_doc(p) {
        Some(d) => d,
        None => {
            return None;
        },
    };
    let event_type = match get_str(&d, "e") {
        Some(x) => x,
        None => {
            return None;
        },
    };
    let event_time = match get_u64(&d, "E") {
        Some(x) => x,
        None => {
            return None;
        },
    };
    let maker_commission_rate = match get_u64(&d, "m") {
        Some(x) => x,
        None => {
            return None;
        },
    };
    let taker_commission_rate = match get_u64(&d, "t") {
        Some(x) => x,
        None => {
            return None;
        },
    };
    let buyer_commission_rate = match get_u64(&d, "b") {
        Some(x) => x,
        None => {
            return None;
        },
    };
    let seller_commission_rate = match get_u64(&d, "s") {
        Some(x) => x,
        None => {
            return None;
        },
    };
    let can_trade = match get_bool(&d, "T") {
        Some(x) => x,
        None => {
            return None;
        },
    };
    let can_withdraw = match get_bool(&d, "W") {
        Some(x) => x,
        None => {
            return None;
        },
    };
    let can_deposit = match get_bool(&d, "D") {
        Some(x) => x,
        None => {
            return None;
        },
    };
    let last_account_update = match get_u64(&d, "u") {
        Some(x) => x,
        None => {
            return None;
        },
    };
    let raw = match get_arr(&d, "B") {
        Some(x) => x,
        None => {
            return None;
        },
    };
    let n = raw.len();
    let mut balances: Vec<EventBalance> = Vec::new();
    let mut i: usize = 0;
    while i < n
        invariant
            json_well_formed(p@),
            d == json_doc_of(p@),
            n == raw@.len(),
            fld_arr(d, "B"@) == Some(raw@),
            i <= n,
            balances@.len() == i,
            forall|j: int| 0 <= j < i ==> balance_matches(raw@[j], #[trigger] balances@[j]),
            forall|j: int| 0 <= j < i ==> balance_decodes(#[trigger] raw@[j]),
        decreases n - i,
    {
        let b = &raw[i];
        proof {
            assert(fld_arr(d, "B"@).unwrap()[i as int] == raw@[i as int]);
        }
        let asset = match get_str(b, "a") {
            Some(x) => x,
            None => {
                proof {
                    assert(!balance_decodes(raw@[i as int]));
                    assert(!account_decodes(d));
                }
                return None;
            },
        };
        let free = match get_str(b, "f") {
            Some(x) => x,
            None => {
                proof {
                    assert(!balance_decodes(raw@[i as int]));
                    assert(!account_decodes(d));
                }
                return None;
            },
        };
        let locked = match get_str(b, "l") {
            Some(x) => x,
            None => {
                proof {
                    assert(!balance_decodes(raw@[i as int]));
                    assert(!account_decodes(d));
                }
                return None;
            },
        };
        balances.push(EventBalance { asset, free, locked });
        i = i + 1;
    }
    proof {
        assert forall|ii: int| 0 <= ii < fld_arr(d, "B"@).unwrap().len() implies balance_decodes(
            #[trigger] fld_arr(d, "B"@).unwrap()[ii],
        ) by {
            assert(fld_arr(d, "B"@).unwrap()[ii] == raw@[ii]);
        }
        assert forall|ii: int| 0 <= ii < balances@.len() implies balance_matches(
            #[trigger] fld_arr(d, "B"@).unwrap()[ii],
            balances@[ii],
        ) by {
            assert(fld_arr(d, "B"@).unwrap()[ii] == raw@[ii]);
        }
    }
    Some(AccountUpdateEvent {
        event_type,
        event_time,
        maker_commission_rate,
        taker_commission_rate,
        buyer_commission_rate,
        seller_commission_rate,
        can_trade,
        can_withdraw,
        can_deposit,
        last_account_update,
        balances,
    })
}

/// The ticker entry carried by one element of a `24hrTicker` batch, when
/// the schema fits.
pub open spec fn ticker_of_doc(d: JsonDoc) -> Option<DayTickerEvent> {
    let e = fld_str(d, "e"@);
    let et = fld_u64(d, "E"@);
    let s = fld_str(d, "s"@);
    let p = fld_str(d, "p"@);
    let pp = fld_str(d, "P"@);
    let w = fld_str(d, "w"@);
    let x = fld_str(d, "x"@);
    let c = fld_str(d, "c"@);
    let q = fld_str(d, "Q"@);
    let b = fld_str(d, "b"@);
    let bq = fld_str(d, "B"@);
    let a = fld_str(d, "a"@);
    let aq = fld_str(d, "A"@);
    let o = fld_str(d, "o"@);
    let h = fld_str(d, "h"@);
    let l = fld_str(d, "l"@);
    let v = fld_str(d, "v"@);
    let qv = fld_str(d, "q"@);
    let ot = fld_u64(d, "O"@);
    let ct = fld_u64(d, "C"@);
    let ft = fld_u64(d, "F"@);
    let lt = fld_u64(d, "L"@);
    let nt = fld_u64(d, "n"@);
    if e is Some && et is Some && s is Some && p is Some && pp is Some && w is Some && x is Some
        && c is Some && q is Some && b is Some && bq is Some && a is Some && aq is Some
        && o is Some && h is Some && l is Some && v is Some && qv is Some && ot is Some
        && ct is Some && ft is Some && lt is Some && nt is Some {
        Some(DayTickerEvent {
            event_type: e.unwrap(),
            event_time: et.unwrap(),
            symbol: s.unwrap(),
            price_change: p.unwrap(),
            price_change_percent: pp.unwrap(),
            average_price: w.unwrap(),
            prev_close: x.unwrap(),
            current_close: c.unwrap(),
            current_close_qty: q.unwrap(),
            best_bid: b.unwrap(),
            best_bid_qty: bq.unwrap(),
            best_ask: a.unwrap(),
            best_ask_qty: aq.unwrap(),
            open: o.unwrap(),
            high: h.unwrap(),
            low: l.unwrap(),
            volume: v.unwrap(),
            quote_volume: qv.unwrap(),
            open_time: ot.unwrap(),
            close_time: ct.unwrap(),
            first_trade_id: ft.unwrap(),
            last_trade_id: lt.unwrap(),
            num_trades: nt.unwrap(),
        })
    } else {
        None
    }
}

/// Whether a document fits the `24hrTicker` schema: an array, every entry
/// decoding to a ticker.
pub open spec fn tickers_decode(d: JsonDoc) -> bool {
    &&& doc_items(d) is Some
    &&& (forall|i: int|
        0 <= i < doc_items(d).unwrap().len() ==> ticker_of_doc(
            #[trigger] doc_items(d).unwrap()[i],
        ) is Some)
}

/// Whether `v` is the batch a document carries: complete and in array order.
pub open spec fn tickers_match(d: JsonDoc, v: Seq<DayTickerEvent>) -> bool {
    &&& doc_items(d) is Some
    &&& v.len() == doc_items(d).unwrap().len()
    &&& (forall|i: int|
        0 <= i < v.len() ==> ticker_of_doc(#[trigger] doc_items(d).unwrap()[i]) == Some(v[i]))
}

/// Decode one ticker entry.
fn ticker_from_doc(d: &JsonDoc) -> (r: Option<DayTickerEvent>)
    ensures
        r == ticker_of_doc(*d),
{
    let event_type = match get_str(d, "e") {
        Some(x) => x,
        None => {
            return None;
        },
    };
    let event_time = match get_u64(d, "E") {
        Some(x) => x,
        None => {
            return None;
        },
    };
    let symbol = match get_str(d, "s") {
        Some(x) => x,
        None => {
            return None;
        },
    };
    let price_change = match get_str(d, "p") {
        Some(x) => x,
        None => {
            return None;
        },
    };
    let price_change_percent = match get_str(d, "P") {
        Some(x) => x,
        None => {
            return None;
        },
    };
    let average_price = match get_str(d, "w") {
        Some(x) => x,
        None => {
            return None;
        },
    };
    let prev_close = match get_str(d, "x") {
        Some(x) => x,
        None => {
            return None;
        },
    };
    let current_close = match get_str(d, "c") {
        Some(x) => x,
        None => {
            return None;
        },
    };
    let current_close_qty = match get_str(d, "Q") {
        Some(x) => x,
        None => {
            return None;
        },
    };
    let best_bid = match get_str(d, "b") {
        Some(x) => x,
        None => {
            return None;
        },
    };
    let best_bid_qty = match get_str(d, "B") {
        Some(x) => x,
        None => {
            return None;
        },
    };
    let best_ask = match get_str(d, "a") {
        Some(x) => x,
        None => {
            return None;
        },
    };
    let best_ask_qty = match get_str(d, "A") {
        Some(x) => x,
        None => {
            return None;
        },
    };
    let open = match get_str(d, "o") {
        Some(x) => x,
        None => {
            return None;
        },
    };
    let high = match get_str(d, "h") {
        Some(x) => x,
        None => {
            return None;
        },
    };
    let low = match get_str(d, "l") {
        Some(x) => x,
        None => {
            return None;
        },
    };
    let volume = match get_str(d, "v") {
        Some(x) => x,
        None => {
            return None;
        },
    };
    let quote_volume = match get_str(d, "q") {
        Some(x) => x,
        None => {
            return None;
        },
    };
    let open_time = match get_u64(d, "O") {
        Some(x) => x,
        None => {
            return None;
        },
    };
    let close_time = match get_u64(d, "C") {
        Some(x) => x,
        None => {
            return None;
        },
    };
    let first_trade_id = match get_u64(d, "F") {
        Some(x) => x,
        None => {
            return None;
        },
    };
    let last_trade_id = match get_u64(d, "L") {
        Some(x) => x,
        None => {
            return None;
        },
    };
    let num_trades = match get_u64(d, "n") {
        Some(x) => x,
        None => {
            return None;
        },
    };
    Some(DayTickerEvent {
        event_type,
        event_time,
        symbol,
        price_change,
        price_change_percent,
        average_price,
        prev_close,
        current_close,
        current_close_qty,
        best_bid,
        best_bid_qty,
        best_ask,
        best_ask_qty,
        open,
        high,
        low,
        volume,
        quote_volume,
        open_time,
        close_time,
        first_trade_id,
        last_trade_id,
        num_trades,
    })
}

/// Decode a `24hrTicker` payload: an array of ticker entries, in order.
pub(crate) fn decode_day_ticker(p: &str) -> (r: Option<Vec<DayTickerEvent>>)
    ensures
        r is Some <==> json_well_formed(p@) && tickers_decode(json_doc_of(p@)),
        r matches Some(v) ==> tickers_match(json_doc_of(p@), v@),
{
    let d = match parse_doc(p) {
        Some(d) => d,
        None => {
            return None;
        },
    };
    let raw = match doc_as_array(&d) {
        Some(x) => x,
        None => {
            return None;
        },
    };
    let n = raw.len();
    let mut out: Vec<DayTickerEvent> = Vec::new();
    let mut i: usize = 0;
    while i < n
        invariant
            json_well_formed(p@),
            d == json_doc_of(p@),
            n == raw@.len(),
            doc_items(d) == Some(raw@),
            i <= n,
            out@.len() == i,
            forall|j: int| 0 <= j < i ==> ticker_of_doc(raw@[j]) == Some(#[trigger] out@[j]),
        decreases n - i,
    {
        proof {
            assert(doc_items(d).unwrap()[i as int] == raw@[i as int]);
        }
        match ticker_from_doc(&raw[i]) {
            Some(t) => out.push(t),
            None => {
                proof {
                    assert(ticker_of_doc(raw@[i as int]) is None);
                    assert(!tickers_decode(d));
                }
                return None;
            },
        }
        i = i + 1;
    }
    proof {
        assert forall|ii: int| 0 <= ii < doc_items(d).unwrap().len() implies ticker_of_doc(
            #[trigger] doc_items(d).unwrap()[ii],
        ) is Some by {
            assert(doc_items(d).unwrap()[ii] == raw@[ii]);
            assert(ticker_of_doc(raw@[ii]) == Some(out@[ii]));
        }
        assert forall|ii: int| 0 <= ii < out@.len() implies ticker_of_doc(
            #[trigger] doc_items(d).unwrap()[ii],
        ) == Some(out@[ii]) by {
            assert(doc_items(d).unwrap()[ii] == raw@[ii]);
        }
    }
    Some(out)
}

/// The `[price, quantity]` level carried by one element of a depth array,
/// when the schema fits.
pub open spec fn level_of_doc(d: JsonDoc) -> Option<OrderBookLevel> {
    let p = doc_item(d, 0);
    let q = doc_item(d, 1);
    if p is Some && q is Some && doc_str(p.unwrap()) is Some && doc_str(q.unwrap()) is Some {
        Some(OrderBookLevel { price: doc_str(p.unwrap()).unwrap(), qty: doc_str(q.unwrap()).unwrap() })
    } else {
        None
    }
}

/// Whether every element of `items` is a `[price, quantity]` level and `ls`
/// is exactly those levels, in order.
pub open spec fn levels_match(items: Seq<JsonDoc>, ls: Seq<OrderBookLevel>) -> bool {
    &&& ls.len() == items.len()
    &&& (forall|i: int| 0 <= i < items.len() ==> level_of_doc(#[trigger] items[i]) == Some(ls[i]))
}

/// Whether every element of `items` is a `[price, quantity]` level.
pub open spec fn levels_decode(items: Seq<JsonDoc>) -> bool {
    forall|i: int| 0 <= i < items.len() ==> level_of_doc(#[trigger] items[i]) is Some
}

/// Decode one `[price, quantity]` pair.
fn level_from_doc(d: &JsonDoc) -> (r: Option<OrderBookLevel>)
    ensures
        r == level_of_doc(*d),
{
    let items = match doc_as_array(d) {
        Some(x) => x,
        None => {
            return None;
        },
    };
    if items.len() < 2 {
        return None;
    }
    let price = match doc_as_string(&items[0]) {
        Some(x) => x,
        None => {
            return None;
        },
    };
    let qty = match doc_as_string(&items[1]) {
        Some(x) => x,
        None => {
            return None;
        },
    };
    Some(OrderBookLevel { price, qty })
}

/// Decode every element of a depth array.
fn levels_from_docs(items: &Vec<JsonDoc>) -> (r: Option<Vec<OrderBookLevel>>)
    ensures
        r is Some <==> levels_decode(items@),
        r matches Some(ls) ==> levels_match(items@, ls@),
{
    let n = items.len();
    let mut out: Vec<OrderBookLevel> = Vec::new();
    let mut i: usize = 0;
    while i < n
        invariant
            n == items@.len(),
            i <= n,
            out@.len() == i,
            forall|j: int| 0 <= j < i ==> level_of_doc(items@[j]) == Some(#[trigger] out@[j]),
        decreases n - i,
    {
        match level_from_doc(&items[i]) {
            Some(l) => out.push(l),
            None => {
                proof {
                    assert(level_of_doc(items@[i as int]) is None);
                }
                return None;
            },
        }
        i = i + 1;
    }
    proof {
        assert forall|ii: int| 0 <= ii < items@.len() implies level_of_doc(
            #[trigger] items@[ii],
        ) is Some by {
            assert(level_of_doc(items@[ii]) == Some(out@[ii]));
        }
        assert forall|ii: int| 0 <= ii < items@.len() implies level_of_doc(#[trigger] items@[ii])
            == Some(out@[ii]) by {
            assert(level_of_doc(items@[ii]) == Some(out@[ii]));
        }
    }
    Some(out)
}

/// Whether a document fits the `depthUpdate` schema.
pub open spec fn depth_decodes(d: JsonDoc) -> bool {
    &&& fld_str(d, "e"@) is Some
    &&& fld_u64(d, "E"@) is Some
    &&& fld_str(d, "s"@) is Some
    &&& fld_u64(d, "U"@) is Some
    &&& fld_u64(d, "u"@) is Some
    &&& fld_arr(d, "b"@) is Some
    &&& fld_arr(d, "a"@) is Some
    &&& levels_decode(fld_arr(d, "b"@).unwrap())
    &&& levels_decode(fld_arr(d, "a"@).unwrap())
}

/// Whether `ev` is the depth delta a document carries: scalar fields equal,
/// bid and ask levels complete and in array order.
pub open spec fn depth_matches(d: JsonDoc, ev: DepthOrderBookEvent) -> bool {
    &&& fld_str(d, "e"@) == Some(ev.event_type)
    &&& fld_u64(d, "E"@) == Some(ev.event_time)
    &&& fld_str(d, "s"@) == Some(ev.symbol)
    &&& fld_u64(d, "U"@) == Some(ev.first_update_id)
    &&& fld_u64(d, "u"@) == Some(ev.final_update_id)
    &&& fld_arr(d, "b"@) is Some
    &&& fld_arr(d, "a"@) is Some
    &&& levels_match(fld_arr(d, "b"@).unwrap(), ev.bids@)
    &&& levels_match(fld_arr(d, "a"@).unwrap(), ev.asks@)
}

/// Decode a `depthUpdate` payload.
pub(crate) fn decode_depth(p: &str) -> (r: Option<DepthOrderBookEvent>)
    ensures
        r is Some <==> json_well_formed(p@) && depth_decodes(json_doc_of(p@)),
        r matches Some(ev) ==> depth_matches(json_doc_of(p@), ev),
{
    let d = match parse_doc(p) {
        Some(d) => d,
        None => {
            return None;
        },
    };
    let event_type = match get_str(&d, "e") {
        Some(x) => x,
        None => {
            return None;
        },
    };
    let event_time = match get_u64(&d, "E") {
        Some(x) => x,
        None => {
            return None;
        },
    };
    let symbol = match get_str(&d, "s") {
        Some(x) => x,
        None => {
            return None;
        },
    };
    let first_update_id = match get_u64(&d, "U") {
        Some(x) => x,
        None => {
            return None;
        },
    };
    let final_update_id = match get_u64(&d, "u") {
        Some(x) => x,
        None => {
            return None;
        },
    };
    let raw_bids = match get_arr(&d, "b") {
        Some(x) => x,
        None => {
            return None;
        },
    };
    let bids = match levels_from_docs(raw_bids) {
        Some(x) => x,
        None => {
            return None;
        },
    };
    let raw_asks = match get_arr(&d, "a") {
        Some(x) => x,
        None => {
            return None;
        },
    };
    let asks = match levels_from_docs(raw_asks) {
        Some(x) => x,
        None => {
            return None;
        },
    };
    Some(DepthOrderBookEvent {
        event_type,
        event_time,
        symbol,
        first_update_id,
        final_update_id,
        bids,
        asks,
    })
}

/// Whether a document fits the `lastUpdateId` partial book schema.
pub open spec fn order_book_decodes(d: JsonDoc) -> bool {
    &&& fld_u64(d, "lastUpdateId"@) is Some
    &&& fld_arr(d, "bids"@) is Some
    &&& fld_arr(d, "asks"@) is Some
    &&& levels_decode(fld_arr(d, "bids"@).unwrap())
    &&& levels_decode(fld_arr(d, "asks"@).unwrap())
}

/// Whether `ob` is the partial book a document carries.
pub open spec fn order_book_matches(d: JsonDoc, ob: OrderBook) -> bool {
    &&& fld_u64(d, "lastUpdateId"@) == Some(ob.last_update_id)
    &&& fld_arr(d, "bids"@) is Some
    &&& fld_arr(d, "asks"@) is Some
    &&& levels_match(fld_arr(d, "bids"@).unwrap(), ob.bids@)
    &&& levels_match(fld_arr(d, "asks"@).unwrap(), ob.asks@)
}

/// Decode a `lastUpdateId` partial order book payload.
pub(crate) fn decode_order_book(p: &str) -> (r: Option<OrderBook>)
    ensures
        r is Some <==> json_well_formed(p@) && order_book_decodes(json_doc_of(p@)),
        r matches Some(ob) ==> order_book_matches(json_doc_of(p@), ob),
{
    let d = match parse_doc(p) {
        Some(d) => d,
        None => {
            return None;
        },
    };
    let last_update_id = match get_u64(&d, "lastUpdateId") {
        Some(x) => x,
        None => {
            return None;
        },
    };
    let raw_bids = match get_arr(&d, "bids") {
        Some(x) => x,
        None => {
            return None;
        },
    };
    let bids = match levels_from_docs(raw_bids) {
        Some(x) => x,
        None => {
            return None;
        },
    };
    let raw_asks = match get_arr(&d, "asks") {
        Some(x) => x,
        None => {
            return None;
        },
    };
    let asks = match levels_from_docs(raw_asks) {
        Some(x) => x,
        None => {
            return None;
        },
    };
    Some(OrderBook { last_update_id, bids, asks })
}

} // verus!
