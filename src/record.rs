use vstd::prelude::*;
use crate::order::{order_kind, kind_of, Order, OrderKind, Side};

verus! {

/// One executed order as it is persisted. `id` is a random UUID as a
/// 128-bit integer, `executed_at` the time of execution in microseconds
/// since the Unix epoch, prices and amounts in cents.
#[derive(Clone, Debug)]
pub struct TransactionRecord {
    pub id: u128,
    pub user_id: String,
    pub ticker: String,
    pub fill_price: i64,
    pub quantity: u64,
    pub total_amount: i128,
    pub executed_at: i64,
    pub order_kind: OrderKind,
}

/// The record holds what an order filled at `fill_price` has to hold: the
/// order's user, ticker and quantity, the fill price, the price times the
/// quantity, and the kind of the order. Its id and time are left open.
pub open spec fn records_fill(r: TransactionRecord, order: Order, side: Side, fill_price: i64) -> bool {
    &&& r.user_id@ == order.user_id@
    &&& r.ticker@ == order.ticker@
    &&& r.fill_price == fill_price
    &&& r.quantity == order.quantity
    &&& r.total_amount == fill_price * order.quantity
    &&& r.order_kind == kind_of(side, order.limit_order)
}

/// Relies on uuid::Uuid::new_v4 for a random identifier. Nothing is
/// promised of the value; the call panics only where the system has no
/// source of randomness.
#[verifier::external_body]
fn fresh_id() -> (id: u128) {
    uuid::Uuid::new_v4().as_u128()
}

/// Relies on chrono::Utc::now and DateTime::timestamp_micros for the
/// current time. Nothing is promised of the value; the call panics only
/// where the system clock stands before the Unix epoch.
#[verifier::external_body]
fn now_micros() -> (t: i64) {
    chrono::Utc::now().timestamp_micros()
}

/// The record of an order filled at `fill_price`, under the given id and
/// time.
pub fn build_record(order: &Order, side: Side, fill_price: i64, id: u128, executed_at: i64) -> (r: TransactionRecord)
    ensures
        records_fill(r, *order, side, fill_price),
        r.id == id,
        r.executed_at == executed_at,
{
    let p = fill_price as i128;
    let q = order.quantity as i128;
    assert(-0x8000_0000_0000_0000 <= p < 0x8000_0000_0000_0000 && 0 <= q < 0x1_0000_0000_0000_0000
        ==> -0x8000_0000_0000_0000_0000_0000_0000_0000 <= p * q < 0x8000_0000_0000_0000_0000_0000_0000_0000)
        by (nonlinear_arith);
    TransactionRecord {
        id,
        user_id: order.user_id.clone(),
        ticker: order.ticker.clone(),
        fill_price,
        quantity: order.quantity,
        total_amount: p * q,
        executed_at,
        order_kind: order_kind(side, order.limit_order),
    }
}

/// The record of an order filled at `fill_price`, under a fresh random id
/// and the current time.
pub fn new_record(order: &Order, side: Side, fill_price: i64) -> (r: TransactionRecord)
    ensures
        records_fill(r, *order, side, fill_price),
{
    let id = fresh_id();
    let at = now_micros();
    build_record(order, side, fill_price, id, at)
}

} // verus!
