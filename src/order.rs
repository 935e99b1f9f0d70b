use vstd::prelude::*;

verus! {

/// Which way an order trades.
#[derive(Clone, Copy, Debug, PartialEq, Eq, Structural)]
pub enum Side {
    Buy,
    Sell,
}

/// The label stored with each executed transaction.
#[derive(Clone, Copy, Debug, PartialEq, Eq, Structural)]
pub enum OrderKind {
    MarketBuy,
    MarketSell,
    LimitBuy,
    LimitSell,
}

/// The kind of an order, from its side and whether a limit applies.
pub open spec fn kind_of(side: Side, is_limit: bool) -> OrderKind {
    match (side, is_limit) {
        (Side::Buy, true) => OrderKind::LimitBuy,
        (Side::Buy, false) => OrderKind::MarketBuy,
        (Side::Sell, true) => OrderKind::LimitSell,
        (Side::Sell, false) => OrderKind::MarketSell,
    }
}

pub fn order_kind(side: Side, is_limit: bool) -> (k: OrderKind)
    ensures
        k == kind_of(side, is_limit),
{
    match (side, is_limit) {
        (Side::Buy, true) => OrderKind::LimitBuy,
        (Side::Buy, false) => OrderKind::MarketBuy,
        (Side::Sell, true) => OrderKind::LimitSell,
        (Side::Sell, false) => OrderKind::MarketSell,
    }
}

impl OrderKind {
    /// The text under which the kind is persisted.
    pub open spec fn label_view(self) -> Seq<char> {
        match self {
            OrderKind::MarketBuy => "Market Buy"@,
            OrderKind::MarketSell => "Market Sell"@,
            OrderKind::LimitBuy => "Limit Buy"@,
            OrderKind::LimitSell => "Limit Sell"@,
        }
    }

    pub fn label(&self) -> (s: &'static str)
        ensures
            s@ == self.label_view(),
    {
        match self {
            OrderKind::MarketBuy => "Market Buy",
            OrderKind::MarketSell => "Market Sell",
            OrderKind::LimitBuy => "Limit Buy",
            OrderKind::LimitSell => "Limit Sell",
        }
    }
}

/// An order as submitted by a user. Prices are in cents; `limit_price`
/// matters only when `limit_order` is set.
#[derive(Clone, Debug)]
pub struct Order {
    pub user_id: String,
    pub ticker: String,
    pub quantity: u64,
    pub limit_order: bool,
    pub limit_price: i64,
}

impl Order {
    pub fn new(user_id: &str, ticker: &str, quantity: u64, limit_order: bool, limit_price: i64) -> (o: Order)
        ensures
            o.user_id@ == user_id@,
            o.ticker@ == ticker@,
            o.quantity == quantity,
            o.limit_order == limit_order,
            o.limit_price == limit_price,
    {
        Order {
            user_id: String::from_str(user_id),
            ticker: String::from_str(ticker),
            quantity,
            limit_order,
            limit_price,
        }
    }
}

/// The reason an order did not go through, as text for the caller.
#[derive(Clone, Debug)]
pub struct OrderError {
    pub message: String,
}

impl OrderError {
    pub fn new(message: &str) -> (e: OrderError)
        ensures
            e.message@ == message@,
    {
        OrderError { message: String::from_str(message) }
    }
}

/// A registered user.
#[derive(Clone, Debug)]
pub struct User {
    pub name: String,
    pub email: String,
    pub user_id: String,
}

/// What a caller sends to register a user.
#[derive(Clone, Debug)]
pub struct CreateUserIntent {
    pub name: String,
    pub email: String,
    pub user_id: String,
}

impl CreateUserIntent {
    /// The user that the intent registers.
    pub fn into_user(self) -> (u: User)
        ensures
            u.name@ == self.name@,
            u.email@ == self.email@,
            u.user_id@ == self.user_id@,
    {
        User { name: self.name, email: self.email, user_id: self.user_id }
    }
}

} // verus!
