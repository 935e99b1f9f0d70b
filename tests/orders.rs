use trade_orders::evaluator::{evaluate, limit_is_right_price, rejection_message, Decision};
use trade_orders::money::cents_text;
use trade_orders::order::{order_kind, CreateUserIntent, Order, OrderError, OrderKind, Side};
use trade_orders::record::{build_record, new_record};
use trade_orders::service::{after_quote, after_record, price_response, quote_request, OrderOutcome, QuoteError, Step};

fn record_of(step: Step) -> trade_orders::record::TransactionRecord {
    match step {
        Step::Record(r) => r,
        Step::Respond(o) => panic!("expected a record, got {:?}", o),
    }
}

fn answer_of(step: Step) -> OrderOutcome {
    match step {
        Step::Respond(o) => o,
        Step::Record(r) => panic!("expected an answer, got {:?}", r),
    }
}

#[test]
fn market_buy_aapl_fills_at_quote() {
    let order = Order::new("u1", "AAPL", 10, false, 0);
    let r = record_of(after_quote(&order, Side::Buy, Ok(15000)));
    assert_eq!(r.fill_price, 15000);
    assert_eq!(r.total_amount, 150000);
    assert_eq!(r.quantity, 10);
    assert_eq!(r.order_kind.label(), "Market Buy");
    assert_eq!(r.user_id, "u1");
    assert_eq!(r.ticker, "AAPL");
}

#[test]
fn limit_buy_tsla_rejected_with_delta() {
    let order = Order::new("u1", "TSLA", 5, true, 20000);
    match answer_of(after_quote(&order, Side::Buy, Ok(21000))) {
        OrderOutcome::Rejected(e) => {
            assert!(e.message.contains("-10.00"), "{}", e.message);
            assert!(e.message.contains("TSLA"));
        }
        other => panic!("unexpected {:?}", other),
    }
}

#[test]
fn limit_sell_msft_fills_above_limit() {
    let order = Order::new("u2", "MSFT", 3, true, 30000);
    let r = record_of(after_quote(&order, Side::Sell, Ok(30500)));
    assert_eq!(r.fill_price, 30500);
    assert_eq!(r.total_amount, 91500);
    assert_eq!(r.order_kind, OrderKind::LimitSell);
    assert_eq!(r.order_kind.label(), "Limit Sell");
}

#[test]
fn limit_sell_msft_rejected_below_limit() {
    let order = Order::new("u2", "MSFT", 3, true, 30000);
    match answer_of(after_quote(&order, Side::Sell, Ok(29500))) {
        OrderOutcome::Rejected(e) => assert!(e.message.contains("5.00"), "{}", e.message),
        other => panic!("unexpected {:?}", other),
    }
}

#[test]
fn unknown_ticker_is_not_found() {
    let order = Order::new("u1", "ZZZZ", 1, false, 0);
    match answer_of(after_quote(&order, Side::Buy, Err(QuoteError::NotFound))) {
        OrderOutcome::NotFound(e) => {
            assert!(e.message.contains("ZZZZ"));
            assert_eq!(e.message, "Unable to find price for ticker: ZZZZ");
        }
        other => panic!("unexpected {:?}", other),
    }
}

#[test]
fn provider_failure_is_service_error() {
    let order = Order::new("u1", "AAPL", 1, false, 0);
    let q = Err(QuoteError::Provider { detail: "connection reset".to_string() });
    match answer_of(after_quote(&order, Side::Sell, q)) {
        OrderOutcome::ServiceError(e) => assert_eq!(e.message, "connection reset"),
        other => panic!("unexpected {:?}", other),
    }
}

#[test]
fn ticker_case_is_ignored() {
    let lower = quote_request(&Order::new("u1", "aapl", 1, false, 0)).unwrap();
    let upper = quote_request(&Order::new("u1", "AAPL", 1, false, 0)).unwrap();
    assert_eq!(lower, "AAPL");
    assert_eq!(lower, upper);
    assert_eq!(quote_request(&Order::new("u1", "MsFt", 2, true, 5)).unwrap(), "MSFT");
}

#[test]
fn zero_quantity_is_invalid() {
    match quote_request(&Order::new("u1", "AAPL", 0, false, 0)) {
        Err(OrderOutcome::Invalid(e)) => assert_eq!(e.message, "quantity must be positive"),
        other => panic!("unexpected {:?}", other),
    }
}

#[test]
fn empty_ticker_is_invalid() {
    match quote_request(&Order::new("u1", "", 4, false, 0)) {
        Err(OrderOutcome::Invalid(e)) => assert_eq!(e.message, "ticker must not be empty"),
        other => panic!("unexpected {:?}", other),
    }
}

#[test]
fn resubmission_writes_two_records() {
    let order = Order::new("u3", "AAPL", 7, false, 0);
    let a = record_of(after_quote(&order, Side::Buy, Ok(12345)));
    let b = record_of(after_quote(&order, Side::Buy, Ok(12345)));
    assert_eq!(a.user_id, b.user_id);
    assert_eq!(a.ticker, b.ticker);
    assert_eq!(a.quantity, b.quantity);
    assert_eq!(a.total_amount, b.total_amount);
    assert_ne!(a.id, b.id);
}

#[test]
fn market_order_ignores_limit_price() {
    for limit in [i64::MIN, -1, 0, 100, 14999, 15000, 15001, i64::MAX] {
        let order = Order::new("u1", "AAPL", 1, false, limit);
        assert_eq!(evaluate(&order, Side::Buy, 15000), Decision::Execute { price: 15000 });
        assert_eq!(evaluate(&order, Side::Sell, 15000), Decision::Execute { price: 15000 });
    }
}

#[test]
fn limit_buy_boundary_executes() {
    let order = Order::new("u1", "AAPL", 1, true, 15000);
    assert_eq!(evaluate(&order, Side::Buy, 15000), Decision::Execute { price: 15000 });
    assert_eq!(evaluate(&order, Side::Buy, 14000), Decision::Execute { price: 14000 });
    assert_eq!(evaluate(&order, Side::Buy, 15001), Decision::Reject { delta: -1 });
}

#[test]
fn limit_sell_boundary_executes() {
    let order = Order::new("u1", "AAPL", 1, true, 15000);
    assert_eq!(evaluate(&order, Side::Sell, 15000), Decision::Execute { price: 15000 });
    assert_eq!(evaluate(&order, Side::Sell, 16000), Decision::Execute { price: 16000 });
    assert_eq!(evaluate(&order, Side::Sell, 14999), Decision::Reject { delta: 1 });
}

#[test]
fn extreme_prices_do_not_overflow() {
    let order = Order::new("u1", "AAPL", 1, true, i64::MIN);
    assert_eq!(
        evaluate(&order, Side::Buy, i64::MAX),
        Decision::Reject { delta: i64::MIN as i128 - i64::MAX as i128 }
    );
    let big = Order::new("u1", "AAPL", u64::MAX, false, 0);
    let r = build_record(&big, Side::Sell, i64::MIN, 9, 10);
    assert_eq!(r.total_amount, i64::MIN as i128 * u64::MAX as i128);
}

#[test]
fn limit_check_by_side() {
    assert!(limit_is_right_price(Side::Buy, 100, 100));
    assert!(!limit_is_right_price(Side::Buy, 99, 100));
    assert!(limit_is_right_price(Side::Sell, 100, 100));
    assert!(!limit_is_right_price(Side::Sell, 101, 100));
}

#[test]
fn kinds_follow_side_and_limit() {
    assert_eq!(order_kind(Side::Buy, true).label(), "Limit Buy");
    assert_eq!(order_kind(Side::Buy, false).label(), "Market Buy");
    assert_eq!(order_kind(Side::Sell, true).label(), "Limit Sell");
    assert_eq!(order_kind(Side::Sell, false).label(), "Market Sell");
}

#[test]
fn record_total_and_kind() {
    let order = Order::new("u9", "NVDA", 4, true, 50000);
    let r = build_record(&order, Side::Buy, 45025, 77, 1_700_000_000_000_000);
    assert_eq!(r.id, 77);
    assert_eq!(r.executed_at, 1_700_000_000_000_000);
    assert_eq!(r.total_amount, 180100);
    assert_eq!(r.order_kind, OrderKind::LimitBuy);
}

#[test]
fn new_record_draws_id_and_time() {
    let order = Order::new("u9", "NVDA", 2, false, 0);
    let a = new_record(&order, Side::Sell, 100);
    let b = new_record(&order, Side::Sell, 100);
    assert_ne!(a.id, b.id);
    assert_eq!((a.id >> 76) & 0xF, 4);
    assert!(a.executed_at > 1_500_000_000_000_000);
    assert_eq!(a.order_kind, OrderKind::MarketSell);
    assert_eq!(a.total_amount, 200);
}

#[test]
fn cents_are_written_with_two_decimals() {
    assert_eq!(cents_text(-1000), "-10.00");
    assert_eq!(cents_text(150000), "1500.00");
    assert_eq!(cents_text(5), "0.05");
    assert_eq!(cents_text(0), "0.00");
    assert_eq!(cents_text(-7), "-0.07");
    assert_eq!(cents_text(123456789), "1234567.89");
    assert_eq!(
        cents_text(i128::MIN),
        "-1701411834604692317316873037158841057.28"
    );
}

#[test]
fn rejection_message_holds_ticker_and_delta() {
    assert_eq!(
        rejection_message("TSLA", -1000),
        "unable to execute order for TSLA | price delta ('-' for buy, implied '+' for sell): -10.00"
    );
}

#[test]
fn write_result_decides_outcome() {
    assert!(matches!(after_record(Ok(())), OrderOutcome::Executed));
    match after_record(Err("disk full".to_string())) {
        OrderOutcome::ServiceError(e) => assert_eq!(e.message, "disk full"),
        other => panic!("unexpected {:?}", other),
    }
}

#[test]
fn price_lookup_answers() {
    assert_eq!(price_response("AAPL", Ok(15000)).unwrap(), 15000);
    match price_response("ZZZZ", Err(QuoteError::NotFound)) {
        Err(OrderOutcome::NotFound(e)) => assert!(e.message.contains("ZZZZ")),
        other => panic!("unexpected {:?}", other),
    }
    match price_response("AAPL", Err(QuoteError::Provider { detail: "timeout".to_string() })) {
        Err(OrderOutcome::ServiceError(e)) => assert_eq!(e.message, "timeout"),
        other => panic!("unexpected {:?}", other),
    }
}

#[test]
fn order_error_keeps_message() {
    assert_eq!(OrderError::new("bad order").message, "bad order");
}

#[test]
fn intent_becomes_user() {
    let intent = CreateUserIntent {
        name: "Ada".to_string(),
        email: "ada@example.com".to_string(),
        user_id: "ada1".to_string(),
    };
    let u = intent.into_user();
    assert_eq!(u.name, "Ada");
    assert_eq!(u.email, "ada@example.com");
    assert_eq!(u.user_id, "ada1");
}

#[test]
fn outcomes_map_to_statuses() {
    assert_eq!(OrderOutcome::Executed.status_code(), 200);
    assert_eq!(OrderOutcome::NotFound(OrderError::new("x")).status_code(), 404);
    assert_eq!(OrderOutcome::Rejected(OrderError::new("x")).status_code(), 400);
    assert_eq!(OrderOutcome::Invalid(OrderError::new("x")).status_code(), 400);
    assert_eq!(OrderOutcome::ServiceError(OrderError::new("x")).status_code(), 500);
}
