use vstd::prelude::*;
use crate::evaluator::{evaluate, decision_of, rejection_message, rejection_view, Decision};
use crate::order::{Order, OrderError, Side};
use crate::record::{new_record, records_fill, TransactionRecord};

verus! {

/// Why the quote source gave no price.
#[derive(Clone, Debug)]
pub enum QuoteError {
    /// The symbol is unknown to the quote source.
    NotFound,
    /// Any other failure (network, parse, provider, timeout), with its text.
    Provider { detail: String },
}

/// What the caller of an order submission is told.
#[derive(Clone, Debug)]
pub enum OrderOutcome {
    Executed,
    NotFound(OrderError),
    Rejected(OrderError),
    ServiceError(OrderError),
    Invalid(OrderError),
}

impl OrderOutcome {
    /// The HTTP status that reports the outcome: success, not found for an
    /// unknown symbol, a client error for a rejected or malformed order, and
    /// a server error for a failing provider or store.
    pub fn status_code(&self) -> (c: u16)
        ensures
            self is Executed ==> c == 200,
            self is NotFound ==> c == 404,
            self is Rejected ==> c == 400,
            self is Invalid ==> c == 400,
            self is ServiceError ==> c == 500,
    {
        match self {
            OrderOutcome::Executed => 200,
            OrderOutcome::NotFound(_) => 404,
            OrderOutcome::Rejected(_) => 400,
            OrderOutcome::Invalid(_) => 400,
            OrderOutcome::ServiceError(_) => 500,
        }
    }
}

/// The next thing to do once the quote is in: write a record, or answer.
#[derive(Clone, Debug)]
pub enum Step {
    Record(TransactionRecord),
    Respond(OrderOutcome),
}

/// What `str::to_uppercase` makes of a string.
pub uninterp spec fn upper_of(s: Seq<char>) -> Seq<char>;

/// Relies on str::to_uppercase to normalise a ticker symbol; the result
/// depends on the characters alone.
#[verifier::external_body]
fn uppercase(s: &str) -> (r: String)
    ensures
        r@ == upper_of(s@),
{
    s.to_uppercase()
}

/// The symbol under which a ticker is quoted: the ticker in upper case, so
/// that a lookup does not depend on how the caller spelled it.
pub fn quote_symbol(ticker: &str) -> (r: String)
    ensures
        r@ == upper_of(ticker@),
{
    uppercase(ticker)
}

pub open spec fn not_found_view(ticker: Seq<char>) -> Seq<char> {
    "Unable to find price for ticker: "@ + ticker
}

pub open spec fn quantity_error_view() -> Seq<char> {
    "quantity must be positive"@
}

pub open spec fn ticker_error_view() -> Seq<char> {
    "ticker must not be empty"@
}

/// The answer owed once the quote source has failed.
pub open spec fn quote_failure_answer(o: OrderOutcome, ticker: Seq<char>, e: QuoteError) -> bool {
    match e {
        QuoteError::NotFound => o matches OrderOutcome::NotFound(m) && m.message@ == not_found_view(ticker),
        QuoteError::Provider { detail } => o matches OrderOutcome::ServiceError(m) && m.message@ == detail@,
    }
}

/// The step owed for an order once the quote source has answered.
pub open spec fn step_after_quote(s: Step, order: Order, side: Side, quote: Result<i64, QuoteError>) -> bool {
    match quote {
        Err(e) => s matches Step::Respond(o) && quote_failure_answer(o, order.ticker@, e),
        Ok(market_price) => match decision_of(order.limit_order, side, order.limit_price, market_price) {
            Decision::Execute { price } => s matches Step::Record(r) && records_fill(r, order, side, price),
            Decision::Reject { delta } => s matches Step::Respond(OrderOutcome::Rejected(m))
                && m.message@ == rejection_view(order.ticker@, delta as int),
        },
    }
}

fn quote_failure(ticker: &str, e: QuoteError) -> (o: OrderOutcome)
    ensures
        quote_failure_answer(o, ticker@, e),
{
    match e {
        QuoteError::NotFound => {
            let mut message = String::from_str("Unable to find price for ticker: ");
            message.append(ticker);
            OrderOutcome::NotFound(OrderError { message })
        },
        QuoteError::Provider { detail } => OrderOutcome::ServiceError(OrderError { message: detail }),
    }
}

/// Checks an order before any quote is asked for. A zero quantity or an
/// empty ticker is refused; otherwise the result is the symbol to quote,
/// the ticker in upper case.
pub fn quote_request(order: &Order) -> (r: Result<String, OrderOutcome>)
    ensures
        order.quantity == 0 ==> (r matches Err(OrderOutcome::Invalid(m)) && m.message@ == quantity_error_view()),
        order.quantity > 0 && order.ticker@.len() == 0 ==> (r matches Err(OrderOutcome::Invalid(m))
            && m.message@ == ticker_error_view()),
        order.quantity > 0 && order.ticker@.len() > 0 ==> (r matches Ok(symbol) && symbol@ == upper_of(order.ticker@)),
{
    if order.quantity == 0 {
        Err(OrderOutcome::Invalid(OrderError::new("quantity must be positive")))
    } else if order.ticker.as_str().unicode_len() == 0 {
        Err(OrderOutcome::Invalid(OrderError::new("ticker must not be empty")))
    } else {
        Ok(quote_symbol(order.ticker.as_str()))
    }
}

/// Decides what follows the quote: an unknown symbol or a failing source
/// is answered at once, a rejected limit order is answered with its price
/// delta, and an order that fills becomes one record to write, at the
/// market price.
pub fn after_quote(order: &Order, side: Side, quote: Result<i64, QuoteError>) -> (s: Step)
    ensures
        step_after_quote(s, *order, side, quote),
{
    match quote {
        Err(e) => Step::Respond(quote_failure(order.ticker.as_str(), e)),
        Ok(market_price) => match evaluate(order, side, market_price) {
            Decision::Execute { price } => Step::Record(new_record(order, side, price)),
            Decision::Reject { delta } => {
                let message = rejection_message(order.ticker.as_str(), delta);
                Step::Respond(OrderOutcome::Rejected(OrderError { message }))
            },
        },
    }
}

/// The answer once the record write has been tried: the order counts as
/// executed only when the write succeeded; a failed write is reported with
/// its text, and nothing is retried.
pub fn after_record(stored: Result<(), String>) -> (o: OrderOutcome)
    ensures
        stored is Ok ==> o is Executed,
        stored matches Err(e) ==> (o matches OrderOutcome::ServiceError(m) && m.message@ == e@),
{
    match stored {
        Ok(()) => OrderOutcome::Executed,
        Err(e) => OrderOutcome::ServiceError(OrderError { message: e }),
    }
}

/// The answer to a price lookup: the price in cents, or the failure split
/// as for orders.
pub fn price_response(ticker: &str, quote: Result<i64, QuoteError>) -> (r: Result<i64, OrderOutcome>)
    ensures
        quote matches Ok(p) ==> r == Ok::<i64, OrderOutcome>(p),
        quote matches Err(e) ==> (r matches Err(o) && quote_failure_answer(o, ticker@, e)),
{
    match quote {
        Ok(p) => Ok(p),
        Err(e) => Err(quote_failure(ticker, e)),
    }
}

} // verus!
