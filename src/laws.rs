use vstd::prelude::*;
use crate::evaluator::{contains, decision_of, rejection_view, Decision};
use crate::money::cents_text_view;
use crate::order::{kind_of, Order, Side};
use crate::service::{step_after_quote, QuoteError, Step};

verus! {

/// A market order fills at the market price, whatever its limit price and
/// side.
pub proof fn market_order_fills_at_market(side: Side, limit_price: i64, market_price: i64)
    ensures
        decision_of(false, side, limit_price, market_price) == (Decision::Execute { price: market_price }),
{
}

/// A limit buy fills exactly when its limit is at or above the market
/// price, equality included, and then at the market price.
pub proof fn limit_buy_fills_iff_limit_at_or_above(limit_price: i64, market_price: i64)
    ensures
        decision_of(true, Side::Buy, limit_price, market_price) is Execute <==> limit_price >= market_price,
        limit_price >= market_price ==> decision_of(true, Side::Buy, limit_price, market_price) == (Decision::Execute {
            price: market_price,
        }),
{
}

/// A limit sell fills exactly when its limit is at or below the market
/// price, equality included, and then at the market price.
pub proof fn limit_sell_fills_iff_limit_at_or_below(limit_price: i64, market_price: i64)
    ensures
        decision_of(true, Side::Sell, limit_price, market_price) is Execute <==> limit_price <= market_price,
        limit_price <= market_price ==> decision_of(true, Side::Sell, limit_price, market_price) == (Decision::Execute {
            price: market_price,
        }),
{
}

/// A rejected limit buy reports the limit minus the market price, which is
/// negative, and its message holds that amount.
pub proof fn rejected_buy_reports_delta(ticker: Seq<char>, limit_price: i64, market_price: i64)
    requires
        limit_price < market_price,
    ensures
        decision_of(true, Side::Buy, limit_price, market_price) == (Decision::Reject {
            delta: (limit_price - market_price) as i128,
        }),
        limit_price - market_price < 0,
        contains(
            rejection_view(ticker, limit_price - market_price),
            cents_text_view(limit_price - market_price),
        ),
{
    let msg = rejection_view(ticker, limit_price - market_price);
    let amount = cents_text_view(limit_price - market_price);
    let i = msg.len() - amount.len();
    assert(msg.subrange(i, i + amount.len()) =~= amount);
}

/// An order that fills yields exactly one record to write, at the market
/// price, whose total is the fill price times the quantity and whose kind
/// follows from the side and whether a limit applies.
pub proof fn filled_order_yields_one_record(s: Step, order: Order, side: Side, market_price: i64)
    requires
        step_after_quote(s, order, side, Ok(market_price)),
        decision_of(order.limit_order, side, order.limit_price, market_price) is Execute,
    ensures
        s matches Step::Record(r) && r.fill_price == market_price && r.total_amount == r.fill_price * r.quantity
            && r.quantity == order.quantity && r.order_kind == kind_of(side, order.limit_order),
{
}

/// Submitting the same order twice against the same quote yields two
/// records that agree on user, ticker, quantity, price, total and kind;
/// nothing merges them. Their ids are drawn at random for each record.
pub proof fn resubmission_yields_matching_records(
    s1: Step,
    s2: Step,
    order: Order,
    side: Side,
    quote: Result<i64, QuoteError>,
)
    requires
        step_after_quote(s1, order, side, quote),
        step_after_quote(s2, order, side, quote),
        s1 is Record,
    ensures
        s2 is Record,
        s1 matches Step::Record(r1) && s2 matches Step::Record(r2) && r1.user_id@ == r2.user_id@
            && r1.ticker@ == r2.ticker@ && r1.quantity == r2.quantity && r1.fill_price == r2.fill_price
            && r1.total_amount == r2.total_amount && r1.order_kind == r2.order_kind,
{
}

} // verus!
