//! The order record that the cancel coordinator reads and updates.
use vstd::prelude::*;
use crate::types::{Amount, ClientOrderId, ExchangeOrderId};

verus! {

#[derive(Clone, Copy, Debug, PartialEq, Eq, Structural)]
pub enum OrderStatus {
    Creating,
    Created,
    Canceling,
    Canceled,
    Completed,
    Failed,
}

/// The channel that delivered a cancel confirmation.
#[derive(Clone, Copy, Debug, PartialEq, Eq, Structural)]
pub enum EventSourceType {
    WebSocket,
    Rest,
    RestFallback,
}

#[derive(Clone, Copy, Debug, PartialEq, Eq, Structural)]
pub enum ExchangeErrorType {
    Unknown,
    SendError,
    RateLimit,
    ParsingError,
    PendingError,
    OrderNotFound,
    OrderCompleted,
    InsufficientFunds,
    InvalidOrder,
    ServiceUnavailable,
}

/// An error reported by the venue.
#[derive(Clone, Debug)]
pub struct ExchangeError {
    pub error_type: ExchangeErrorType,
    pub message: String,
    pub code: Option<i64>,
    /// For a pending error: how long to wait before trying again, in milliseconds.
    pub pending_time_ms: u64,
}

impl ExchangeError {
    pub fn new(error_type: ExchangeErrorType, message: String, code: Option<i64>) -> (r: Self)
        ensures
            r.error_type == error_type,
            r.message == message,
            r.code == code,
            r.pending_time_ms == 0,
    {
        ExchangeError { error_type, message, code, pending_time_ms: 0 }
    }
}

/// One fill of an order.
#[derive(Clone, Copy, Debug, PartialEq, Eq, Structural)]
pub struct OrderFill {
    pub amount: Amount,
    pub price: Amount,
    pub commission_amount: Amount,
}

/// Reconciliation state of an order.
#[derive(Clone, Copy, Debug, PartialEq, Eq, Structural)]
pub struct OrderInternalProps {
    /// Set by the first cancel coordinator that works on the order.
    pub is_canceling_from_wait_cancel_order: bool,
    pub cancellation_event_source_type: Option<EventSourceType>,
    pub last_cancellation_error: Option<ExchangeErrorType>,
    /// Milliseconds since the Unix epoch of the last status poll.
    pub last_order_cancellation_status_request_time: Option<i64>,
    /// Filled amount reported by the check made after the cancel.
    pub filled_amount_after_cancellation: Option<Amount>,
    /// Set when the order became terminal through an unsolicited channel.
    pub canceled_not_from_wait_cancel_order: bool,
}

impl OrderInternalProps {
    pub fn new() -> (r: Self)
        ensures
            !r.is_canceling_from_wait_cancel_order,
            r.cancellation_event_source_type is None,
            r.last_cancellation_error is None,
            r.last_order_cancellation_status_request_time is None,
            r.filled_amount_after_cancellation is None,
            !r.canceled_not_from_wait_cancel_order,
    {
        OrderInternalProps {
            is_canceling_from_wait_cancel_order: false,
            cancellation_event_source_type: None,
            last_cancellation_error: None,
            last_order_cancellation_status_request_time: None,
            filled_amount_after_cancellation: None,
            canceled_not_from_wait_cancel_order: false,
        }
    }
}

/// An order as the coordinator sees it.
#[derive(Clone, Debug)]
pub struct Order {
    pub client_order_id: ClientOrderId,
    pub exchange_order_id: Option<ExchangeOrderId>,
    pub status: OrderStatus,
    pub fills: Vec<OrderFill>,
    pub filled_amount: Amount,
    pub internal_props: OrderInternalProps,
}

pub open spec fn is_terminal(status: OrderStatus) -> bool {
    status == OrderStatus::Canceled || status == OrderStatus::Completed || status == OrderStatus::Failed
}

/// Relies on chrono::Utc::now and DateTime::timestamp_millis: the current time
/// in milliseconds since the Unix epoch. Nothing is stated of its value.
#[verifier::external_body]
fn current_timestamp_millis() -> (r: i64) {
    chrono::Utc::now().timestamp_millis()
}

impl Order {
    pub fn new(client_order_id: ClientOrderId, exchange_order_id: Option<ExchangeOrderId>, status: OrderStatus) -> (r: Self)
        ensures
            r.client_order_id == client_order_id,
            r.exchange_order_id == exchange_order_id,
            r.status == status,
            r.fills@.len() == 0,
            r.filled_amount == 0,
            r.internal_props == (OrderInternalProps {
                is_canceling_from_wait_cancel_order: false,
                cancellation_event_source_type: None,
                last_cancellation_error: None,
                last_order_cancellation_status_request_time: None,
                filled_amount_after_cancellation: None,
                canceled_not_from_wait_cancel_order: false,
            }),
    {
        Order {
            client_order_id,
            exchange_order_id,
            status,
            fills: Vec::new(),
            filled_amount: 0,
            internal_props: OrderInternalProps::new(),
        }
    }

    pub fn is_finished(&self) -> (r: bool)
        ensures
            r == is_terminal(self.status),
    {
        self.status == OrderStatus::Canceled || self.status == OrderStatus::Completed
            || self.status == OrderStatus::Failed
    }

    /// Sets the single-flight latch and returns whether it was set before.
    pub fn start_canceling_from_wait_cancel_order(&mut self) -> (r: bool)
        ensures
            r == old(self).internal_props.is_canceling_from_wait_cancel_order,
            final(self).internal_props == (OrderInternalProps {
                is_canceling_from_wait_cancel_order: true,
                ..old(self).internal_props
            }),
            final(self).client_order_id == old(self).client_order_id,
            final(self).exchange_order_id == old(self).exchange_order_id,
            final(self).status == old(self).status,
            final(self).fills == old(self).fills,
            final(self).filled_amount == old(self).filled_amount,
    {
        let current = self.internal_props.is_canceling_from_wait_cancel_order;
        self.internal_props.is_canceling_from_wait_cancel_order = true;
        current
    }

    /// Records that the order's status is being requested from the venue now.
    pub fn record_status_request_time(&mut self)
        ensures
            final(self).internal_props.last_order_cancellation_status_request_time is Some,
            final(self).internal_props == (OrderInternalProps {
                last_order_cancellation_status_request_time: final(self).internal_props.last_order_cancellation_status_request_time,
                ..old(self).internal_props
            }),
            final(self).client_order_id == old(self).client_order_id,
            final(self).exchange_order_id == old(self).exchange_order_id,
            final(self).status == old(self).status,
            final(self).fills == old(self).fills,
            final(self).filled_amount == old(self).filled_amount,
    {
        let now = current_timestamp_millis();
        self.internal_props.last_order_cancellation_status_request_time = Some(now);
    }
}

} // verus!
