//! Authenticated order management: the order variants, what the exchange
//! reports back, and the contract that a trading integration meets.
use vstd::prelude::*;
use vstd::string::*;
use crate::decimal::{is_decimal, is_positive_decimal, spec_is_decimal, spec_is_positive_decimal};
use crate::errors::{AuthedError, InvalidParams, InvalidResponse};
use crate::types::{Side, TimeInForce};

verus! {

/// An order at a given price or better. It always carries a price.
#[derive(Debug, Clone, PartialEq, Eq)]
pub struct LimitOrder {
    pub side: Side,
    pub qty: String,
    pub price: String,
    pub time_in_force: Option<TimeInForce>,
    pub post_only: Option<bool>,
}

/// An order at whatever price the market gives. It has no price field.
#[derive(Debug, Clone, PartialEq, Eq)]
pub struct MarketOrder {
    pub side: Side,
    pub qty: String,
    pub time_in_force: Option<TimeInForce>,
}

#[derive(Debug, Clone, PartialEq, Eq)]
pub enum Order {
    Limit(LimitOrder),
    Market(MarketOrder),
}

#[derive(Debug, Clone, PartialEq, Eq)]
pub struct PlaceOrderResponse {
    pub order_id: String,
}

/// The state of an order as the exchange reports it. `Filled` and
/// `Canceled` are final.
#[derive(Debug, Clone, Copy, PartialEq, Eq, Structural)]
pub enum OrderStatus {
    New,
    PartiallyFilled,
    Filled,
    Canceled,
}

/// A snapshot of one order.
#[derive(Debug, Clone, PartialEq, Eq)]
pub struct QueryOrderResponse {
    pub status: OrderStatus,
    pub executed_qty: String,
}

/// A snapshot of the funds in one currency: what can be used, and what is
/// held by open orders.
#[derive(Debug, Clone, PartialEq, Eq)]
pub struct Balance {
    pub free: String,
    pub locked: String,
}

impl OrderStatus {
    /// Whether no further change of state can follow.
    pub fn is_terminal(&self) -> (r: bool)
        ensures
            r == (*self is Filled || *self is Canceled),
    {
        match self {
            OrderStatus::Filled | OrderStatus::Canceled => true,
            OrderStatus::New | OrderStatus::PartiallyFilled => false,
        }
    }
}

impl Order {
    pub open spec fn spec_side(&self) -> Side {
        match self {
            Order::Limit(l) => l.side,
            Order::Market(m) => m.side,
        }
    }

    pub open spec fn spec_qty(&self) -> Seq<char> {
        match self {
            Order::Limit(l) => l.qty@,
            Order::Market(m) => m.qty@,
        }
    }

    /// The price, which a limit order has and a market order has not.
    pub open spec fn spec_price(&self) -> Option<Seq<char>> {
        match self {
            Order::Limit(l) => Some(l.price@),
            Order::Market(_) => None,
        }
    }

    pub open spec fn spec_time_in_force(&self) -> Option<TimeInForce> {
        match self {
            Order::Limit(l) => l.time_in_force,
            Order::Market(m) => m.time_in_force,
        }
    }

    /// Post-only is an instruction of limit orders alone.
    pub open spec fn spec_post_only(&self) -> Option<bool> {
        match self {
            Order::Limit(l) => l.post_only,
            Order::Market(_) => None,
        }
    }

    /// The quantity, and the price where there is one, are exact decimals
    /// above zero.
    pub open spec fn well_formed(&self) -> bool {
        &&& spec_is_positive_decimal(self.spec_qty())
        &&& self.spec_price() matches Some(p) ==> spec_is_positive_decimal(p)
    }

    pub fn side(&self) -> (r: Side)
        ensures
            r == self.spec_side(),
    {
        match self {
            Order::Limit(l) => l.side,
            Order::Market(m) => m.side,
        }
    }

    pub fn qty(&self) -> (r: &String)
        ensures
            r@ == self.spec_qty(),
    {
        match self {
            Order::Limit(l) => &l.qty,
            Order::Market(m) => &m.qty,
        }
    }

    /// The price: present on every limit order, absent on every market order.
    pub fn price(&self) -> (r: Option<&String>)
        ensures
            r is Some <==> *self is Limit,
            r matches Some(p) ==> self.spec_price() == Some(p@),
    {
        match self {
            Order::Limit(l) => Some(&l.price),
            Order::Market(_) => None,
        }
    }

    pub fn time_in_force(&self) -> (r: Option<TimeInForce>)
        ensures
            r == self.spec_time_in_force(),
    {
        match self {
            Order::Limit(l) => l.time_in_force,
            Order::Market(m) => m.time_in_force,
        }
    }

    pub fn post_only(&self) -> (r: Option<bool>)
        ensures
            r == self.spec_post_only(),
            *self is Market ==> r is None,
    {
        match self {
            Order::Limit(l) => l.post_only,
            Order::Market(_) => None,
        }
    }
}

/// The result is a rejection of the caller's parameters.
pub open spec fn rejects_params<T>(r: Result<T, AuthedError>) -> bool {
    r matches Err(e) && e is InvalidParams
}

/// Checks the fields of an order before it is sent: the quantity, and the
/// price of a limit order, must be exact decimals above zero. Anything else
/// is rejected as invalid parameters.
pub fn validate_order(order: &Order) -> (r: Result<(), AuthedError>)
    ensures
        r is Ok <==> order.well_formed(),
        r is Err ==> rejects_params(r),
{
    if !is_positive_decimal(order.qty().as_str()) {
        return Err(
            AuthedError::InvalidParams(
                InvalidParams::new("quantity must be a decimal above zero".to_owned()),
            ),
        );
    }
    if let Some(p) = order.price() {
        if !is_positive_decimal(p.as_str()) {
            return Err(
                AuthedError::InvalidParams(
                    InvalidParams::new("price must be a decimal above zero".to_owned()),
                ),
            );
        }
    }
    Ok(())
}

/// The error for a reply that breaks what the contract owes.
fn invalid_reply(detail: &str) -> (r: AuthedError)
    ensures
        r is InvalidResponse,
{
    AuthedError::InvalidResponse(InvalidResponse::new(detail.to_owned()))
}

/// The result is a reply that could not be used.
pub open spec fn rejects_reply<T>(r: Result<T, AuthedError>) -> bool {
    r matches Err(e) && e is InvalidResponse
}

/// Holds the reply to a placed order to a non-empty order id: an error
/// passes through, a reply with an id is kept, and one without becomes an
/// invalid response.
pub fn check_placed_order(r: Result<PlaceOrderResponse, AuthedError>) -> (out: Result<
    PlaceOrderResponse,
    AuthedError,
>)
    ensures
        r is Err ==> out == r,
        r matches Ok(p) && p.order_id@.len() > 0 ==> out == r,
        r matches Ok(p) && p.order_id@.len() == 0 ==> rejects_reply(out),
{
    match r {
        Ok(p) => {
            if p.order_id.as_str().unicode_len() > 0 {
                Ok(p)
            } else {
                Err(invalid_reply("the exchange gave no order id"))
            }
        },
        Err(e) => Err(e),
    }
}

/// Holds an order snapshot to an exact decimal executed quantity: an error
/// passes through, a well-formed snapshot is kept, and any other becomes an
/// invalid response.
pub fn check_query_order(r: Result<QueryOrderResponse, AuthedError>) -> (out: Result<
    QueryOrderResponse,
    AuthedError,
>)
    ensures
        r is Err ==> out == r,
        r matches Ok(q) && spec_is_decimal(q.executed_qty@) ==> out == r,
        r matches Ok(q) && !spec_is_decimal(q.executed_qty@) ==> rejects_reply(out),
{
    match r {
        Ok(q) => {
            if is_decimal(q.executed_qty.as_str()) {
                Ok(q)
            } else {
                Err(invalid_reply("the executed quantity is no decimal"))
            }
        },
        Err(e) => Err(e),
    }
}

/// Holds a balance to exact decimal amounts: an error passes through, a
/// well-formed balance is kept, and any other becomes an invalid response.
pub fn check_balance(r: Result<Balance, AuthedError>) -> (out: Result<Balance, AuthedError>)
    ensures
        r is Err ==> out == r,
        r matches Ok(b) && spec_is_decimal(b.free@) && spec_is_decimal(b.locked@) ==> out == r,
        r matches Ok(b) && !(spec_is_decimal(b.free@) && spec_is_decimal(b.locked@))
            ==> rejects_reply(out),
{
    match r {
        Ok(b) => {
            if is_decimal(b.free.as_str()) && is_decimal(b.locked.as_str()) {
                Ok(b)
            } else {
                Err(invalid_reply("a balance amount is no decimal"))
            }
        },
        Err(e) => Err(e),
    }
}

/// Order management on one exchange account. Every operation fails only
/// with an [`AuthedError`].
pub trait Trading {
    /// Submits an order. On success the exchange's identifier of the new
    /// order is not empty; an order with a malformed quantity or price is
    /// rejected as invalid parameters.
    fn place_order(&self, symbol: &str, order: Order) -> (r: Result<
        PlaceOrderResponse,
        AuthedError,
    >)
        ensures
            r matches Ok(resp) ==> resp.order_id@.len() > 0,
            !order.well_formed() ==> rejects_params(r),
    ;

    /// Requests the cancellation of one order.
    fn cancel_order(&self, symbol: &str, order_id: &str) -> Result<(), AuthedError>;

    /// Requests the cancellation of every open order for `symbol`.
    fn cancel_all_orders(&self, symbol: &str) -> Result<(), AuthedError>;

    /// A snapshot of one order; the executed quantity is an exact decimal.
    fn query_order(&self, symbol: &str, order_id: &str) -> (r: Result<
        QueryOrderResponse,
        AuthedError,
    >)
        ensures
            r matches Ok(q) ==> spec_is_decimal(q.executed_qty@),
    ;

    /// A snapshot of the funds in `currency`; both amounts are exact
    /// decimals, so neither is below zero.
    fn get_balance(&self, currency: &str) -> (r: Result<Balance, AuthedError>)
        ensures
            r matches Ok(b) ==> spec_is_decimal(b.free@) && spec_is_decimal(b.locked@),
    ;
}

} // verus!
