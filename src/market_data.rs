//! Public, unauthenticated market queries: order books and trade history.
use vstd::prelude::*;
use crate::errors::{InvalidResponse, UnauthedError};

verus! {

/// A point in time without a time zone: whole seconds since the epoch and
/// the nanoseconds past that second. An integration documents which zone
/// it counts in. Nanoseconds from one second upwards mark a leap second,
/// which only the last second of a minute can have (see [`Timestamp::wf`]).
#[derive(Debug, Clone, Copy, PartialEq, Eq, Structural)]
pub struct Timestamp {
    pub secs: i64,
    pub nanos: u32,
}

/// One price level of a book.
#[derive(Debug, Clone)]
pub struct BookEntry {
    pub amount: String,
    pub price: String,
}

/// Both sides of a book: asks by ascending price, bids by descending price.
#[derive(Debug, Clone)]
pub struct OrderBook {
    pub asks: Vec<BookEntry>,
    pub bids: Vec<BookEntry>,
}

#[derive(Debug, Clone)]
pub struct Trade {
    pub price: String,
    pub quantity: String,
    pub time: Timestamp,
    pub buyer_maker: bool,
}

/// Filters of an aggregate trade query; each is optional on its own, and
/// none implies another.
#[derive(Debug, Clone)]
pub struct AggTradeParams<'a> {
    pub limit: Option<usize>,
    pub start: Option<Timestamp>,
    pub start_id: Option<&'a str>,
    pub end: Option<Timestamp>,
}

impl<'a> Default for AggTradeParams<'a> {
    /// No filter at all.
    fn default() -> (r: Self)
        ensures
            r.limit is None,
            r.start is None,
            r.start_id is None,
            r.end is None,
    {
        Self { limit: None, start: None, start_id: None, end: None }
    }
}

/// `a` is not later than `b`.
pub open spec fn time_le(a: Timestamp, b: Timestamp) -> bool {
    a.secs < b.secs || (a.secs == b.secs && a.nanos <= b.nanos)
}

/// Time does not decrease from one trade to the next.
pub open spec fn trades_in_time_order(ts: Seq<Trade>) -> bool {
    forall|i: int| 0 <= i < ts.len() - 1 ==> time_le(#[trigger] ts[i].time, ts[i + 1].time)
}

/// Every trade carries a valid timestamp.
pub open spec fn trade_times_valid(ts: Seq<Trade>) -> bool {
    forall|i: int| 0 <= i < ts.len() ==> (#[trigger] ts[i]).time.wf()
}

/// What every trade history owes: valid timestamps in time order.
pub open spec fn valid_history(ts: Seq<Trade>) -> bool {
    trade_times_valid(ts) && trades_in_time_order(ts)
}

/// The history keeps to the filters of an aggregate trade query: no more
/// trades than the limit, none before the start, none after the end.
pub open spec fn within_params(ts: Seq<Trade>, params: AggTradeParams) -> bool {
    &&& params.limit matches Some(n) ==> ts.len() <= n
    &&& params.start matches Some(s) ==> forall|i: int|
        0 <= i < ts.len() ==> time_le(s, #[trigger] ts[i].time)
    &&& params.end matches Some(e) ==> forall|i: int|
        0 <= i < ts.len() ==> time_le(#[trigger] ts[i].time, e)
}

impl Timestamp {
    /// The timestamp stands for a date-time: below two seconds of
    /// nanoseconds, and a whole second or more of them only in the last
    /// second of a minute.
    pub open spec fn wf(&self) -> bool {
        &&& self.nanos < 2_000_000_000
        &&& self.nanos >= 1_000_000_000 ==> self.secs % 60 == 59
    }

    /// Whether `self` stands for a date-time.
    pub fn is_valid(&self) -> (r: bool)
        ensures
            r == self.wf(),
    {
        if self.nanos >= 2_000_000_000 {
            return false;
        }
        if self.nanos < 1_000_000_000 {
            return true;
        }
        if self.secs >= 0 {
            self.secs % 60 == 59
        } else {
            let below: i64 = -(self.secs + 1);
            assert(self.secs % 60 == 59 <==> below % 60 == 0) by {
                assert(below == -(self.secs + 1));
                assert((self.secs + 1) % 60 == 0 <==> self.secs % 60 == 59);
                assert((self.secs + 1) % 60 == 0 <==> (-(self.secs + 1)) % 60 == 0);
            };
            below % 60 == 0
        }
    }

    /// Whether `self` is not later than `other`.
    pub fn le(&self, other: &Timestamp) -> (r: bool)
        ensures
            r == time_le(*self, *other),
    {
        self.secs < other.secs || (self.secs == other.secs && self.nanos <= other.nanos)
    }
}

impl OrderBook {
    /// Whether neither side is deeper than `limit`; any book is when there
    /// is no limit.
    pub fn within_depth(&self, limit: Option<usize>) -> (r: bool)
        ensures
            r == (limit matches Some(n) ==> self.asks@.len() <= n && self.bids@.len() <= n),
    {
        match limit {
            Some(n) => self.asks.len() <= n && self.bids.len() <= n,
            None => true,
        }
    }
}

/// Whether `trades` is ordered by non-decreasing time, the most recent last.
pub fn in_time_order(trades: &Vec<Trade>) -> (r: bool)
    ensures
        r == trades_in_time_order(trades@),
{
    let n = trades.len();
    if n == 0 {
        return true;
    }
    let mut i: usize = 0;
    while i < n - 1
        invariant
            n == trades@.len(),
            n > 0,
            i <= n - 1,
            forall|k: int| 0 <= k < i && k < n - 1 ==> time_le(#[trigger] trades@[k].time, trades@[k + 1].time),
        decreases n - i,
    {
        if !trades[i].time.le(&trades[i + 1].time) {
            return false;
        }
        i += 1;
    }
    true
}

/// Whether every trade carries a valid timestamp.
pub fn times_valid(trades: &Vec<Trade>) -> (r: bool)
    ensures
        r == trade_times_valid(trades@),
{
    let mut i: usize = 0;
    while i < trades.len()
        invariant
            0 <= i <= trades@.len(),
            forall|k: int| 0 <= k < i ==> (#[trigger] trades@[k]).time.wf(),
        decreases trades@.len() - i,
    {
        if !trades[i].time.is_valid() {
            return false;
        }
        i += 1;
    }
    true
}

/// Whether `trades` keeps to the limit, start and end of `params`.
pub fn trades_within_params(trades: &Vec<Trade>, params: &AggTradeParams) -> (r: bool)
    ensures
        r == within_params(trades@, *params),
{
    if let Some(n) = params.limit {
        if trades.len() > n {
            return false;
        }
    }
    let mut i: usize = 0;
    while i < trades.len()
        invariant
            0 <= i <= trades@.len(),
            params.start matches Some(s) ==> forall|k: int|
                0 <= k < i ==> time_le(s, #[trigger] trades@[k].time),
            params.end matches Some(e) ==> forall|k: int|
                0 <= k < i ==> time_le(#[trigger] trades@[k].time, e),
        decreases trades@.len() - i,
    {
        if let Some(s) = params.start {
            if !s.le(&trades[i].time) {
                return false;
            }
        }
        if let Some(e) = params.end {
            if !trades[i].time.le(&e) {
                return false;
            }
        }
        i += 1;
    }
    true
}

/// Holds a trade history that an integration returned to what every
/// history owes: an error passes through, a valid history in time order is
/// kept, and any other becomes an invalid response.
pub fn check_trades(r: Result<Vec<Trade>, UnauthedError>) -> (out: Result<
    Vec<Trade>,
    UnauthedError,
>)
    ensures
        r is Err ==> out == r,
        r matches Ok(v) && valid_history(v@) ==> out == r,
        r matches Ok(v) && !valid_history(v@) ==> (out matches Err(e) && e is InvalidResponse),
        out matches Ok(v) ==> valid_history(v@),
{
    match r {
        Ok(v) => {
            if !times_valid(&v) {
                Err(
                    UnauthedError::InvalidResponse(
                        InvalidResponse::new("a trade has an invalid timestamp".to_owned()),
                    ),
                )
            } else if !in_time_order(&v) {
                Err(
                    UnauthedError::InvalidResponse(
                        InvalidResponse::new("trades are not in time order".to_owned()),
                    ),
                )
            } else {
                Ok(v)
            }
        },
        Err(e) => Err(e),
    }
}

/// Holds an aggregate trade history that an integration returned to what
/// it owes for `params`: an error passes through, a valid history in time
/// order within the limit, start and end is kept, and any other becomes an
/// invalid response.
pub fn check_agg_trades(r: Result<Vec<Trade>, UnauthedError>, params: &AggTradeParams) -> (out:
    Result<Vec<Trade>, UnauthedError>)
    ensures
        r is Err ==> out == r,
        r matches Ok(v) && valid_history(v@) && within_params(v@, *params) ==> out == r,
        r matches Ok(v) && !(valid_history(v@) && within_params(v@, *params)) ==> (out matches Err(
            e,
        ) && e is InvalidResponse),
        out matches Ok(v) ==> valid_history(v@) && within_params(v@, *params),
{
    match check_trades(r) {
        Ok(v) => {
            if trades_within_params(&v, params) {
                Ok(v)
            } else {
                Err(
                    UnauthedError::InvalidResponse(
                        InvalidResponse::new("trades fall outside the query's filters".to_owned()),
                    ),
                )
            }
        },
        Err(e) => Err(e),
    }
}

/// A history in time order between neighbours is in time order between any
/// two of its trades: an earlier position never holds a later time.
pub proof fn lemma_time_order_between_any_two(ts: Seq<Trade>, i: int, j: int)
    requires
        trades_in_time_order(ts),
        0 <= i <= j < ts.len(),
    ensures
        time_le(ts[i].time, ts[j].time),
    decreases j - i,
{
    if i < j {
        lemma_time_order_between_any_two(ts, i, j - 1);
        assert(time_le(ts[j - 1].time, ts[j].time));
    }
}

/// Public data of one exchange. No operation here needs credentials, so
/// none fails with a credential failure.
pub trait MarketData {
    /// Whether this integration bounds the depth of a book by the limit that
    /// it is asked for; an exchange that cannot gives its default depth. An
    /// integration that does not say so is not held to the limit.
    open spec fn honors_depth_limit(&self) -> bool {
        false
    }

    /// The book of `symbol`; where the integration honors it, `limit` bounds
    /// the depth of each side.
    fn order_book(&self, symbol: &str, limit: Option<usize>) -> (r: Result<
        OrderBook,
        UnauthedError,
    >)
        ensures
            self.honors_depth_limit() ==> (r matches Ok(b) && limit matches Some(n) ==> b.asks@.len()
                <= n && b.bids@.len() <= n),
    ;

    /// Recent trades, sorted by increasing time (recent last), each with a
    /// valid timestamp.
    fn trades(&self, symbol: &str, limit: Option<usize>) -> (r: Result<Vec<Trade>, UnauthedError>)
        ensures
            r matches Ok(v) ==> valid_history(v@),
    ;

    /// Aggregate trades, sorted by increasing time (recent last), each with a
    /// valid timestamp; the filters of `params` are applied, by the exchange
    /// or by the integration: at most `limit` trades, none before `start`,
    /// none after `end`.
    fn agg_trades(&self, symbol: &str, params: AggTradeParams) -> (r: Result<
        Vec<Trade>,
        UnauthedError,
    >)
        ensures
            r matches Ok(v) ==> valid_history(v@) && within_params(v@, params),
    ;
}

} // verus!
