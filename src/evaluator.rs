use vstd::prelude::*;
use crate::money::{cents_text, cents_text_view};
use crate::order::{Order, Side};

verus! {

/// Whether a limit order may execute at the market price: a buy when the
/// limit is at or above the market, a sell when it is at or below it.
pub open spec fn limit_met(side: Side, limit_price: int, market_price: int) -> bool {
    match side {
        Side::Buy => limit_price >= market_price,
        Side::Sell => limit_price <= market_price,
    }
}

/// What becomes of an order at a given market price, in cents.
#[derive(Clone, Copy, Debug, PartialEq, Eq, Structural)]
pub enum Decision {
    /// The order fills at `price`.
    Execute { price: i64 },
    /// The limit is not met; `delta` is the limit minus the market price.
    Reject { delta: i128 },
}

pub open spec fn decision_of(is_limit: bool, side: Side, limit_price: i64, market_price: i64) -> Decision {
    if !is_limit || limit_met(side, limit_price as int, market_price as int) {
        Decision::Execute { price: market_price }
    } else {
        Decision::Reject { delta: (limit_price - market_price) as i128 }
    }
}

/// Whether `part` occurs in `text` as a contiguous run.
pub open spec fn contains(text: Seq<char>, part: Seq<char>) -> bool {
    exists|i: int| 0 <= i <= text.len() - part.len() && #[trigger] text.subrange(i, i + part.len()) == part
}

pub open spec fn rejection_view(ticker: Seq<char>, delta: int) -> Seq<char> {
    "unable to execute order for "@ + ticker + " | price delta ('-' for buy, implied '+' for sell): "@
        + cents_text_view(delta)
}

pub fn limit_is_right_price(side: Side, limit_price: i64, market_price: i64) -> (r: bool)
    ensures
        r == limit_met(side, limit_price as int, market_price as int),
{
    match side {
        Side::Buy => limit_price >= market_price,
        Side::Sell => limit_price <= market_price,
    }
}

/// Decides an order against a freshly fetched market price. A market order
/// always fills at the market price; a limit order fills there when its
/// limit is met, the boundary included, and is rejected otherwise.
pub fn evaluate(order: &Order, side: Side, market_price: i64) -> (d: Decision)
    ensures
        d == decision_of(order.limit_order, side, order.limit_price, market_price),
{
    if !order.limit_order || limit_is_right_price(side, order.limit_price, market_price) {
        Decision::Execute { price: market_price }
    } else {
        Decision::Reject { delta: order.limit_price as i128 - market_price as i128 }
    }
}

/// The text reported for a rejected order: its ticker and the price delta.
pub fn rejection_message(ticker: &str, delta: i128) -> (s: String)
    ensures
        s@ == rejection_view(ticker@, delta as int),
        contains(s@, cents_text_view(delta as int)),
{
    let mut s = String::from_str("unable to execute order for ");
    s.append(ticker);
    s.append(" | price delta ('-' for buy, implied '+' for sell): ");
    let amount = cents_text(delta);
    s.append(amount.as_str());
    let ghost head = s@.len() - amount@.len();
    assert(s@.subrange(head, head + amount@.len()) =~= cents_text_view(delta as int));
    s
}

} // verus!
