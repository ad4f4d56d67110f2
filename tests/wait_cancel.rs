use order_cancel::order::{EventSourceType, ExchangeError, ExchangeErrorType, Order, OrderStatus};
use order_cancel::statistics::{ExchangeEvent, OrderEvent, OrderEventType, StatisticEventHandler, StatisticService};
use order_cancel::types::TradePlaceAccount;
use order_cancel::wait_cancel::{
    order_cancelled_action, AllowedEventSourceType, CancelAttempts, CancelError, CancelOrderResult,
    CancelledAction, Exchange, ExchangeFeatures, OrderInfo, PollAction, RaceOutcome, RequestResult, WorkStart,
};

fn exchange(policy: AllowedEventSourceType) -> Exchange {
    Exchange::new("Binance_0".to_string(), ExchangeFeatures { allowed_cancel_event_source_type: policy })
}

fn created_order() -> Order {
    Order::new("client-1".to_string(), Some("venue-1".to_string()), OrderStatus::Created)
}

fn error(error_type: ExchangeErrorType) -> ExchangeError {
    ExchangeError::new(error_type, "venue said so".to_string(), Some(42))
}

fn completed(outcome: RequestResult) -> RaceOutcome {
    RaceOutcome::CancelCompleted(Some(CancelOrderResult { outcome }))
}

#[test]
fn happy_cancel_via_web_socket() {
    let ex = exchange(AllowedEventSourceType::All);
    let mut order = created_order();
    assert!(!ex.must_await_creation(&order));
    assert_eq!(ex.begin_cancel_work(&mut order), WorkStart::RunCancelLoop);
    assert!(order.internal_props.is_canceling_from_wait_cancel_order);
    assert!(ex.cancel_request_enabled());
    let mut attempts = CancelAttempts::new();
    assert!(attempts.begin_attempt());
    assert!(matches!(ex.race_outcome_action(completed(RequestResult::Success)), Ok(CancelledAction::Nothing)));
    order.status = OrderStatus::Canceled;
    order.internal_props.cancellation_event_source_type = Some(EventSourceType::WebSocket);
    assert!(order.is_finished());
    assert!(!ex.needs_fill_check(&order, false));
    assert!(!ex.needs_cancel_succeeded_event(&order));

    let mut stats = StatisticEventHandler::new(StatisticService::new());
    let account = TradePlaceAccount::new("Binance_0".to_string(), "BTC/USDT".to_string());
    for event_type in [OrderEventType::CreateOrderSucceeded, OrderEventType::CancelOrderSucceeded] {
        let event = ExchangeEvent::OrderEvent(OrderEvent {
            trade_place_account: account.clone_key(),
            client_order_id: "client-1".to_string(),
            event_type,
        });
        stats.handle_event(&event).unwrap();
    }
    assert_eq!(stats.stats.statistic_service_state.get(&account).canceled_orders_count, 1);
}

#[test]
fn cancel_while_completing() {
    let ex = exchange(AllowedEventSourceType::All);
    let mut order = created_order();
    assert_eq!(ex.begin_cancel_work(&mut order), WorkStart::RunCancelLoop);
    let action = ex.race_outcome_action(completed(RequestResult::Error(error(ExchangeErrorType::OrderCompleted))));
    assert!(matches!(action, Ok(CancelledAction::AwaitOrderFinish)));
    order.internal_props.cancellation_event_source_type = Some(EventSourceType::WebSocket);
    order.internal_props.last_cancellation_error = Some(ExchangeErrorType::OrderCompleted);
    order.status = OrderStatus::Canceled;
    assert!(ex.needs_fill_check(&order, false));
    order.status = OrderStatus::Completed;
    assert!(!ex.needs_fill_check(&order, false));
    assert!(!ex.needs_fill_check(&order, true));
    order.internal_props.canceled_not_from_wait_cancel_order = true;
    assert!(!ex.needs_cancel_succeeded_event(&order));
}

#[test]
fn timeout_under_policy_all_retries() {
    let ex = exchange(AllowedEventSourceType::All);
    let mut attempts = CancelAttempts::new();
    assert!(attempts.begin_attempt());
    assert!(matches!(ex.race_outcome_action(RaceOutcome::FallbackTimeout), Ok(CancelledAction::Nothing)));
    assert!(!attempts.begin_attempt());
    assert_eq!(attempts.attempt_number, 2);
    assert!(matches!(ex.race_outcome_action(completed(RequestResult::Success)), Ok(CancelledAction::Nothing)));
}

#[test]
fn timeout_under_policy_non_fallback_fails() {
    let ex = exchange(AllowedEventSourceType::NonFallback);
    assert!(matches!(ex.race_outcome_action(RaceOutcome::FallbackTimeout), Err(CancelError::ExplicitCancelTimeout)));
    assert_eq!(ex.handle_fallback_timeout(), Err(CancelError::ExplicitCancelTimeout));
    assert_eq!(
        CancelError::ExplicitCancelTimeout.message(),
        "Order was expected to cancel explicitly via REST or WebSocket but got timeout instead"
    );
    let fallback_only = exchange(AllowedEventSourceType::FallbackOnly);
    assert!(!fallback_only.cancel_request_enabled());
    assert_eq!(fallback_only.handle_fallback_timeout(), Err(CancelError::ExplicitCancelTimeout));
    assert_eq!(exchange(AllowedEventSourceType::All).handle_fallback_timeout(), Ok(()));
}

#[test]
fn parsing_error_then_polling_finds_canceled() {
    let ex = exchange(AllowedEventSourceType::All);
    let mut order = created_order();
    let action = ex.race_outcome_action(completed(RequestResult::Error(error(ExchangeErrorType::ParsingError))));
    let given = match action {
        Ok(CancelledAction::PollStatus(e)) => e,
        _ => panic!("expected a status poll"),
    };
    assert_eq!(given.error_type, ExchangeErrorType::ParsingError);
    order.record_status_request_time();
    assert!(order.internal_props.last_order_cancellation_status_request_time.unwrap() > 0);
    let info = OrderInfo { order_status: OrderStatus::Canceled, filled_amount: 0 };
    match ex.cancellation_status_action(&order, Ok(info), Some(given)) {
        Ok(PollAction::ReportCancelSucceeded { client_order_id, exchange_order_id, filled_amount }) => {
            assert_eq!(client_order_id, "client-1");
            assert_eq!(exchange_order_id, "venue-1");
            assert_eq!(filled_amount, 0);
        }
        _ => panic!("expected a cancel success"),
    }
    order.status = OrderStatus::Canceled;
    assert!(matches!(ex.cancellation_status_action(&order, Ok(info), None), Ok(PollAction::OrderFinished)));
}

#[test]
fn order_not_found_in_polling_synthesizes_error() {
    let ex = exchange(AllowedEventSourceType::All);
    let order = created_order();
    match ex.cancellation_status_action(&order, Err(error(ExchangeErrorType::OrderNotFound)), None) {
        Ok(PollAction::ReportCancelFailed { exchange_order_id, error }) => {
            assert_eq!(exchange_order_id, "venue-1");
            assert_eq!(error.error_type, ExchangeErrorType::Unknown);
            assert_eq!(error.code, None);
        }
        _ => panic!("expected a cancel failure"),
    }
    match ex.cancellation_status_action(&order, Err(error(ExchangeErrorType::OrderNotFound)),
        Some(error(ExchangeErrorType::ParsingError))) {
        Ok(PollAction::ReportCancelFailed { error, .. }) => {
            assert_eq!(error.error_type, ExchangeErrorType::ParsingError);
            assert_eq!(error.code, Some(42));
        }
        _ => panic!("expected a cancel failure"),
    }
    let no_venue_id = Order::new("client-2".to_string(), None, OrderStatus::Created);
    let failure = ex.cancellation_status_action(&no_venue_id, Err(error(ExchangeErrorType::OrderNotFound)), None);
    match failure {
        Err(e) => {
            assert_eq!(e, CancelError::MissingExchangeOrderId { client_order_id: "client-2".to_string() });
            assert_eq!(e.message(), "There is no exchange order id in order client-2");
        }
        Ok(_) => panic!("expected a failure"),
    }
    assert!(matches!(
        ex.cancellation_status_action(&order, Err(error(ExchangeErrorType::SendError)), None),
        Ok(PollAction::Retry)
    ));
    let info = OrderInfo { order_status: OrderStatus::Completed, filled_amount: 5 };
    assert!(matches!(ex.cancellation_status_action(&order, Ok(info), None), Ok(PollAction::CheckOrderFills)));
    let info = OrderInfo { order_status: OrderStatus::Created, filled_amount: 0 };
    assert!(matches!(ex.cancellation_status_action(&order, Ok(info), None), Ok(PollAction::Stop)));
}

#[test]
fn missed_fill_only_when_more_was_filled() {
    let ex = exchange(AllowedEventSourceType::All);
    let mut order = created_order();
    order.filled_amount = 10;
    assert!(!ex.has_missed_fill(&order));
    order.internal_props.filled_amount_after_cancellation = Some(12);
    assert!(ex.has_missed_fill(&order));
    assert!(ex.needs_fill_check(&order, false));
    order.internal_props.filled_amount_after_cancellation = Some(10);
    assert!(!ex.has_missed_fill(&order));
    order.internal_props.filled_amount_after_cancellation = Some(7);
    assert!(!ex.has_missed_fill(&order));
    assert!(ex.is_fill_under_reported(&order));
}

#[test]
fn pending_error_sleeps_and_others_do_nothing() {
    let mut pending = error(ExchangeErrorType::PendingError);
    pending.pending_time_ms = 1500;
    let outcome = Some(CancelOrderResult { outcome: RequestResult::Error(pending) });
    assert!(matches!(order_cancelled_action(outcome), CancelledAction::Sleep(1500)));
    let outcome = Some(CancelOrderResult { outcome: RequestResult::Error(error(ExchangeErrorType::RateLimit)) });
    assert!(matches!(order_cancelled_action(outcome), CancelledAction::Nothing));
    assert!(matches!(order_cancelled_action(None), CancelledAction::Nothing));
}

#[test]
fn second_coordinator_and_finished_orders_do_nothing() {
    let ex = exchange(AllowedEventSourceType::All);
    let mut order = created_order();
    assert_eq!(ex.begin_cancel_work(&mut order), WorkStart::RunCancelLoop);
    assert_eq!(ex.begin_cancel_work(&mut order), WorkStart::AlreadyCanceling);
    let mut done = Order::new("client-3".to_string(), None, OrderStatus::Failed);
    assert_eq!(ex.begin_cancel_work(&mut done), WorkStart::Finished);
    assert!(!done.internal_props.is_canceling_from_wait_cancel_order);
    let creating = Order::new("client-4".to_string(), None, OrderStatus::Creating);
    assert!(ex.must_await_creation(&creating));
}

#[test]
fn fill_check_after_fallback_and_unsolicited_cancel_event() {
    let ex = exchange(AllowedEventSourceType::All);
    let mut order = created_order();
    order.status = OrderStatus::Canceled;
    order.internal_props.cancellation_event_source_type = Some(EventSourceType::RestFallback);
    assert!(ex.needs_fill_check(&order, false));
    order.internal_props.cancellation_event_source_type = Some(EventSourceType::Rest);
    assert!(!ex.needs_fill_check(&order, false));
    order.internal_props.last_cancellation_error = Some(ExchangeErrorType::OrderNotFound);
    assert!(ex.needs_fill_check(&order, false));
    order.internal_props.canceled_not_from_wait_cancel_order = true;
    assert!(ex.needs_cancel_succeeded_event(&order));
}
