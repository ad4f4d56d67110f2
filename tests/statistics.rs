use order_cancel::order::{Order, OrderFill, OrderStatus};
use order_cancel::statistics::{
    sum_fill_commissions, ExchangeEvent, OrderEvent, OrderEventType, StatisticError, StatisticEventHandler,
    StatisticService, TradePlaceAccountStatistic, DispositionExecutorStatistic,
};
use order_cancel::types::TradePlaceAccount;

fn account() -> TradePlaceAccount {
    TradePlaceAccount::new("Binance_0".to_string(), "BTC/USDT".to_string())
}

fn event(id: &str, event_type: OrderEventType) -> ExchangeEvent {
    ExchangeEvent::OrderEvent(OrderEvent {
        trade_place_account: account(),
        client_order_id: id.to_string(),
        event_type,
    })
}

fn snapshot(id: &str, filled_amount: i128, commissions: &[i128]) -> Order {
    let mut order = Order::new(id.to_string(), Some("venue".to_string()), OrderStatus::Completed);
    order.filled_amount = filled_amount;
    for c in commissions {
        order.fills.push(OrderFill { amount: 1, price: 100, commission_amount: *c });
    }
    order
}

fn filled(id: &str) -> OrderEventType {
    OrderEventType::OrderFilled { cloned_order: snapshot(id, 1, &[0]) }
}

fn completed(id: &str, filled_amount: i128, commissions: &[i128]) -> OrderEventType {
    OrderEventType::OrderCompleted { cloned_order: snapshot(id, filled_amount, commissions) }
}

fn handler() -> StatisticEventHandler {
    StatisticEventHandler::new(StatisticService::new())
}

fn stat(h: &StatisticEventHandler) -> TradePlaceAccountStatistic {
    h.stats.statistic_service_state.get(&account())
}

#[test]
fn created_then_canceled_counts_one_each() {
    let mut h = handler();
    assert_eq!(h.handle_event(&event("a", OrderEventType::CreateOrderSucceeded)), Ok(()));
    assert_eq!(h.handle_event(&event("a", OrderEventType::CancelOrderSucceeded)), Ok(()));
    let s = stat(&h);
    assert_eq!(s.opened_orders_count, 1);
    assert_eq!(s.canceled_orders_count, 1);
    assert_eq!(s.partially_filled_orders_count, 0);
    assert_eq!(s.fully_filled_orders_count, 0);
}

#[test]
fn repeated_fills_count_once_and_completion_uncounts() {
    let mut h = handler();
    h.handle_event(&event("a", filled("a"))).unwrap();
    h.handle_event(&event("a", filled("a"))).unwrap();
    assert_eq!(stat(&h).partially_filled_orders_count, 1);
    assert!(h.stats.is_partially_filled(&"a".to_string()));
    h.handle_event(&event("a", completed("a", 30, &[1, 2, -1])))
        .unwrap();
    let s = stat(&h);
    assert_eq!(s.partially_filled_orders_count, 0);
    assert_eq!(s.fully_filled_orders_count, 1);
    assert_eq!(s.summary_filled_amount, 30);
    assert_eq!(s.summary_commission, 2);
    assert!(!h.stats.is_partially_filled(&"a".to_string()));
    h.handle_event(&event("a", completed("a", 5, &[])))
        .unwrap();
    let s = stat(&h);
    assert_eq!(s.partially_filled_orders_count, 0);
    assert_eq!(s.fully_filled_orders_count, 2);
    assert_eq!(s.summary_filled_amount, 35);
}

#[test]
fn canceled_partially_filled_order_decrements() {
    let mut h = handler();
    h.handle_event(&event("a", filled("a"))).unwrap();
    h.handle_event(&event("b", filled("b"))).unwrap();
    assert_eq!(stat(&h).partially_filled_orders_count, 2);
    h.handle_event(&event("a", OrderEventType::CancelOrderSucceeded)).unwrap();
    let s = stat(&h);
    assert_eq!(s.partially_filled_orders_count, 1);
    assert_eq!(s.canceled_orders_count, 1);
    assert!(h.stats.is_partially_filled(&"b".to_string()));
}

#[test]
fn other_events_change_nothing() {
    let mut h = handler();
    assert_eq!(h.handle_event(&ExchangeEvent::Other), Ok(()));
    assert_eq!(h.handle_event(&event("a", OrderEventType::Other)), Ok(()));
    assert_eq!(stat(&h), TradePlaceAccountStatistic::zero());
}

#[test]
fn commission_overflow_is_refused() {
    let mut h = handler();
    let e = event("a", completed("a", 1, &[i128::MAX, 1]));
    assert_eq!(h.handle_event(&e), Err(StatisticError::Overflow));
    assert_eq!(stat(&h), TradePlaceAccountStatistic::zero());
}

#[test]
fn sum_of_commissions() {
    assert_eq!(sum_fill_commissions(&snapshot("a", 0, &[]).fills), Some(0));
    assert_eq!(sum_fill_commissions(&snapshot("a", 0, &[3, 4, -2]).fills), Some(5));
    assert_eq!(sum_fill_commissions(&snapshot("a", 0, &[i128::MIN, -1]).fills), None);
}

#[test]
fn decrement_at_zero_stays_zero() {
    let mut s = TradePlaceAccountStatistic::zero();
    s.decrement_partially_filled_orders();
    assert_eq!(s.partially_filled_orders_count, 0);
    s.increment_partially_filled_orders();
    s.increment_partially_filled_orders();
    s.decrement_partially_filled_orders();
    assert_eq!(s.partially_filled_orders_count, 1);
}

#[test]
fn counters_of_one_account() {
    let mut s = TradePlaceAccountStatistic::zero();
    s.register_created_order();
    s.register_canceled_order();
    s.increment_completely_filled_orders();
    s.add_summary_filled_amount(7);
    s.add_summary_commission(-3);
    assert_eq!(s.opened_orders_count, 1);
    assert_eq!(s.canceled_orders_count, 1);
    assert_eq!(s.fully_filled_orders_count, 1);
    assert_eq!(s.summary_filled_amount, 7);
    assert_eq!(s.summary_commission, -3);
}

#[test]
fn skipped_events_are_counted() {
    let mut service = StatisticService::new();
    service.register_skipped_event();
    service.register_skipped_event();
    assert_eq!(service.statistic_service_state.skipped_events_amount(), 2);
    assert_eq!(DispositionExecutorStatistic::new(4).skipped_events_amount, 4);
}

#[test]
fn accounts_are_kept_apart() {
    let mut service = StatisticService::new();
    let other = TradePlaceAccount::new("Binance_0".to_string(), "ETH/USDT".to_string());
    service.register_created_order(&account());
    service.register_created_order(&account());
    service.register_created_order(&other);
    assert_eq!(service.statistic_service_state.get(&account()).opened_orders_count, 2);
    assert_eq!(service.statistic_service_state.get(&other).opened_orders_count, 1);
}
