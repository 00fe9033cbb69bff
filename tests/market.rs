use exchange_core::errors::{InvalidParams, NetworkFailure, UnauthedError};
use exchange_core::market_data::{
    check_agg_trades, check_trades, in_time_order, AggTradeParams, BookEntry, OrderBook, Timestamp, Trade,
};
use exchange_core::MarketData;

fn at(secs: i64, nanos: u32) -> Timestamp {
    Timestamp { secs, nanos }
}

fn trade(time: Timestamp) -> Trade {
    Trade { price: "100.0".to_string(), quantity: "1".to_string(), time, buyer_maker: false }
}

fn entry(price: &str) -> BookEntry {
    BookEntry { amount: "1.0".to_string(), price: price.to_string() }
}

/// A liquid market with ten levels on each side and a fixed history.
struct Venue;

impl MarketData for Venue {
    fn order_book(&self, symbol: &str, limit: Option<usize>) -> Result<OrderBook, UnauthedError> {
        if symbol.is_empty() {
            return Err(UnauthedError::InvalidParams(InvalidParams::new("no symbol".to_string())));
        }
        let depth = limit.unwrap_or(10).min(10);
        let asks = (0..depth).map(|i| entry(&format!("{}", 3000 + i))).collect();
        let bids = (0..depth).map(|i| entry(&format!("{}", 2999 - i))).collect();
        Ok(OrderBook { asks, bids })
    }

    fn trades(&self, _symbol: &str, limit: Option<usize>) -> Result<Vec<Trade>, UnauthedError> {
        let all = vec![trade(at(1, 0)), trade(at(1, 0)), trade(at(1, 5)), trade(at(2, 0))];
        let n = limit.unwrap_or(all.len()).min(all.len());
        Ok(all[all.len() - n..].to_vec())
    }

    fn agg_trades(&self, _symbol: &str, params: AggTradeParams) -> Result<Vec<Trade>, UnauthedError> {
        let all = vec![trade(at(1, 0)), trade(at(2, 0)), trade(at(3, 0))];
        let kept: Vec<Trade> = all
            .into_iter()
            .filter(|t| params.end.map_or(true, |e| t.time.le(&e)))
            .filter(|t| params.start.map_or(true, |s| s.le(&t.time)))
            .collect();
        let n = params.limit.unwrap_or(kept.len()).min(kept.len());
        Ok(kept[kept.len() - n..].to_vec())
    }
}

#[test]
fn timestamps_order_by_seconds_then_nanoseconds() {
    assert!(at(1, 0).le(&at(1, 0)));
    assert!(at(1, 0).le(&at(1, 1)));
    assert!(at(1, 999_999_999).le(&at(2, 0)));
    assert!(!at(2, 0).le(&at(1, 999_999_999)));
    assert!(at(-5, 0).le(&at(0, 0)));
}

#[test]
fn time_order_is_non_decreasing() {
    assert!(in_time_order(&vec![]));
    assert!(in_time_order(&vec![trade(at(7, 0))]));
    assert!(in_time_order(&vec![trade(at(1, 0)), trade(at(1, 0)), trade(at(2, 3))]));
    assert!(!in_time_order(&vec![trade(at(1, 0)), trade(at(3, 0)), trade(at(2, 0))]));
    assert!(!in_time_order(&vec![trade(at(1, 5)), trade(at(1, 4))]));
}

#[test]
fn check_trades_keeps_ordered_histories_and_errors() {
    let ok = check_trades(Ok(vec![trade(at(1, 0)), trade(at(2, 0))])).unwrap();
    assert_eq!(ok.len(), 2);
    assert_eq!(ok[1].time, at(2, 0));
    let err = check_trades(Err(UnauthedError::NetworkFailure(NetworkFailure::new(
        "reset".to_string(),
    ))));
    match err {
        Err(UnauthedError::NetworkFailure(e)) => assert_eq!(e.0.detail, "reset"),
        _ => panic!("the error was not passed through"),
    }
}

#[test]
fn check_trades_rejects_histories_out_of_order() {
    let r = check_trades(Ok(vec![trade(at(2, 0)), trade(at(1, 0))]));
    assert!(matches!(r, Err(UnauthedError::InvalidResponse(_))));
}

#[test]
fn venue_histories_are_in_time_order() {
    let v = Venue;
    let t = v.trades("ETHUSDT", None).unwrap();
    assert!(in_time_order(&t));
    assert_eq!(v.trades("ETHUSDT", Some(2)).unwrap().len(), 2);
    let a = v.agg_trades("ETHUSDT", AggTradeParams::default()).unwrap();
    assert_eq!(a.len(), 3);
    assert!(in_time_order(&a));
}

#[test]
fn agg_trades_with_only_an_end() {
    let params = AggTradeParams { end: Some(at(2, 0)), ..AggTradeParams::default() };
    assert!(params.start.is_none());
    assert!(params.start_id.is_none());
    assert!(params.limit.is_none());
    let r = check_trades(Venue.agg_trades("ETHUSDT", params)).unwrap();
    assert_eq!(r.len(), 2);
    assert_eq!(r[1].time, at(2, 0));
}

#[test]
fn order_book_honors_a_limit_of_five() {
    let book = Venue.order_book("ETHUSDT", Some(5)).unwrap();
    assert!(book.within_depth(Some(5)));
    assert!(book.asks.len() <= 5 && book.bids.len() <= 5);
    assert!(!book.asks.is_empty());
    assert!(!book.bids.is_empty());
    assert!(!book.within_depth(Some(4)));
    assert!(book.within_depth(None));
    let deep = Venue.order_book("ETHUSDT", None).unwrap();
    assert!(!deep.within_depth(Some(5)));
    assert!(matches!(Venue.order_book("", Some(5)), Err(UnauthedError::InvalidParams(_))));
}

#[test]
fn timestamps_valid_only_as_date_times() {
    assert!(at(0, 0).is_valid());
    assert!(at(1, 999_999_999).is_valid());
    assert!(at(59, 1_500_000_000).is_valid());
    assert!(at(-1, 1_000_000_000).is_valid());
    assert!(at(-61, 1_999_999_999).is_valid());
    assert!(!at(58, 1_000_000_000).is_valid());
    assert!(!at(-2, 1_000_000_000).is_valid());
    assert!(!at(59, 2_000_000_000).is_valid());
    assert!(!at(0, u32::MAX).is_valid());
}

#[test]
fn check_trades_rejects_invalid_timestamps() {
    let r = check_trades(Ok(vec![trade(at(1, 0)), trade(at(2, 1_000_000_000))]));
    assert!(matches!(r, Err(UnauthedError::InvalidResponse(_))));
    let leap = check_trades(Ok(vec![trade(at(59, 1_000_000_000)), trade(at(60, 0))]));
    assert_eq!(leap.unwrap().len(), 2);
}

#[test]
fn check_agg_trades_applies_limit_start_and_end() {
    let history = || vec![trade(at(1, 0)), trade(at(2, 0)), trade(at(3, 0))];
    let none = AggTradeParams::default();
    assert_eq!(check_agg_trades(Ok(history()), &none).unwrap().len(), 3);
    let limit = AggTradeParams { limit: Some(2), ..AggTradeParams::default() };
    assert!(matches!(check_agg_trades(Ok(history()), &limit), Err(UnauthedError::InvalidResponse(_))));
    let limit3 = AggTradeParams { limit: Some(3), ..AggTradeParams::default() };
    assert!(check_agg_trades(Ok(history()), &limit3).is_ok());
    let start = AggTradeParams { start: Some(at(1, 1)), ..AggTradeParams::default() };
    assert!(matches!(check_agg_trades(Ok(history()), &start), Err(UnauthedError::InvalidResponse(_))));
    let start_ok = AggTradeParams { start: Some(at(1, 0)), ..AggTradeParams::default() };
    assert!(check_agg_trades(Ok(history()), &start_ok).is_ok());
    let end = AggTradeParams { end: Some(at(2, 999)), ..AggTradeParams::default() };
    assert!(matches!(check_agg_trades(Ok(history()), &end), Err(UnauthedError::InvalidResponse(_))));
    let end_ok = AggTradeParams { end: Some(at(3, 0)), start_id: Some("42"), ..AggTradeParams::default() };
    assert!(check_agg_trades(Ok(history()), &end_ok).is_ok());
    let unordered = vec![trade(at(2, 0)), trade(at(1, 0))];
    assert!(matches!(check_agg_trades(Ok(unordered), &none), Err(UnauthedError::InvalidResponse(_))));
    let passed = check_agg_trades(
        Err(UnauthedError::InvalidParams(InvalidParams::new("bad".to_string()))),
        &limit,
    );
    assert!(matches!(passed, Err(UnauthedError::InvalidParams(_))));
}

#[test]
fn agg_trades_of_the_venue_keep_to_their_filters() {
    let params = AggTradeParams { start: Some(at(2, 0)), limit: Some(5), ..AggTradeParams::default() };
    let r = check_agg_trades(Venue.agg_trades("ETHUSDT", params.clone()), &params).unwrap();
    assert_eq!(r.len(), 2);
    assert_eq!(r[0].time, at(2, 0));
}
