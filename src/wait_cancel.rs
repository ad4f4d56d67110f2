//! The decisions of the cancel coordinator, which drives one order to a
//! terminal state. Each function takes what the previous step observed and
//! says what to do next; the caller performs the request, the wait or the
//! notification and comes back with the result.
use vstd::prelude::*;
use vstd::string::StringExecFns;
use crate::order::{
    is_terminal, EventSourceType, ExchangeError, ExchangeErrorType, Order, OrderInternalProps,
    OrderStatus,
};
use crate::types::{Amount, ClientOrderId, ExchangeOrderId};

verus! {

/// Which channels a venue may confirm a cancel through.
#[derive(Clone, Copy, Debug, PartialEq, Eq, Structural)]
pub enum AllowedEventSourceType {
    All,
    FallbackOnly,
    NonFallback,
}

#[derive(Clone, Copy, Debug, PartialEq, Eq, Structural)]
pub struct ExchangeFeatures {
    pub allowed_cancel_event_source_type: AllowedEventSourceType,
}

/// One exchange account, as far as cancelling orders on it goes.
pub struct Exchange {
    pub exchange_account_id: String,
    pub features: ExchangeFeatures,
}

/// The outcome of a request to the venue.
#[derive(Clone, Debug)]
pub enum RequestResult {
    Success,
    Error(ExchangeError),
}

/// What a cancel request returned.
#[derive(Clone, Debug)]
pub struct CancelOrderResult {
    pub outcome: RequestResult,
}

/// What the venue reports of an order.
#[derive(Clone, Copy, Debug, PartialEq, Eq, Structural)]
pub struct OrderInfo {
    pub order_status: OrderStatus,
    pub filled_amount: Amount,
}

/// A failure of the cancel coordinator that is handed to its caller.
#[derive(Clone, Debug, PartialEq, Eq)]
pub enum CancelError {
    /// The fallback timer fired where the venue must confirm a cancel explicitly.
    ExplicitCancelTimeout,
    /// The venue lost the order and there is no venue id to report it under.
    MissingExchangeOrderId { client_order_id: ClientOrderId },
}

/// The text that describes a failure.
pub open spec fn cancel_error_text(e: CancelError) -> Seq<char> {
    match e {
        CancelError::ExplicitCancelTimeout =>
            "Order was expected to cancel explicitly via REST or WebSocket but got timeout instead"@,
        CancelError::MissingExchangeOrderId { client_order_id } =>
            "There is no exchange order id in order "@ + client_order_id@,
    }
}

impl CancelError {
    pub fn message(&self) -> (r: String)
        ensures
            r@ == cancel_error_text(*self),
    {
        match self {
            CancelError::ExplicitCancelTimeout => {
                "Order was expected to cancel explicitly via REST or WebSocket but got timeout instead".to_owned()
            },
            CancelError::MissingExchangeOrderId { client_order_id } => {
                let mut r = "There is no exchange order id in order ".to_owned();
                r.append(client_order_id.as_str());
                r
            },
        }
    }
}

/// How the work on an order starts, once it is no longer being created.
#[derive(Clone, Copy, Debug, PartialEq, Eq, Structural)]
pub enum WorkStart {
    /// The order is terminal already: nothing to do.
    Finished,
    /// Another coordinator works on the order already: nothing to do.
    AlreadyCanceling,
    /// Run the retry loop.
    RunCancelLoop,
}

/// What finished first in one iteration of the retry loop.
pub enum RaceOutcome {
    /// The cancel request returned.
    CancelCompleted(Option<CancelOrderResult>),
    /// The fallback timer fired.
    FallbackTimeout,
}

/// What to do after a cancel request returned.
pub enum CancelledAction {
    /// Nothing: wait for the confirmation, or try again.
    Nothing,
    /// The response could not be read: poll the order's status, passing on the error.
    PollStatus(ExchangeError),
    /// The venue asked to wait this many milliseconds.
    Sleep(u64),
    /// The order completed before the cancel landed: wait for its terminal event.
    AwaitOrderFinish,
}

/// What to do after one status poll.
pub enum PollAction {
    /// The order became terminal meanwhile: stop polling.
    OrderFinished,
    /// Report the cancel as failed, through the fallback channel, and stop.
    ReportCancelFailed { exchange_order_id: ExchangeOrderId, error: ExchangeError },
    /// Report the cancel as succeeded, through the fallback channel, and stop.
    ReportCancelSucceeded {
        client_order_id: ClientOrderId,
        exchange_order_id: ExchangeOrderId,
        filled_amount: Amount,
    },
    /// The order completed: check its fills, then stop.
    CheckOrderFills,
    /// Stop polling.
    Stop,
    /// Poll again.
    Retry,
}

/// Counts the iterations of the retry loop.
#[derive(Clone, Copy, Debug, PartialEq, Eq, Structural)]
pub struct CancelAttempts {
    pub attempt_number: u64,
}

impl CancelAttempts {
    pub fn new() -> (r: Self)
        ensures
            r.attempt_number == 0,
    {
        CancelAttempts { attempt_number: 0 }
    }

    /// Starts an iteration; returns whether it is the first one (the later
    /// ones are worth a warning).
    pub fn begin_attempt(&mut self) -> (r: bool)
        ensures
            final(self).attempt_number == if old(self).attempt_number == u64::MAX {
                u64::MAX
            } else {
                (old(self).attempt_number + 1) as u64
            },
            r == (final(self).attempt_number == 1),
    {
        self.attempt_number = self.attempt_number.saturating_add(1);
        self.attempt_number == 1
    }
}

/// A fill was missed: the venue reported more filled after the cancel than the order has.
pub open spec fn missed_fill(order: Order) -> bool {
    match order.internal_props.filled_amount_after_cancellation {
        Some(after) => after > order.filled_amount,
        None => false,
    }
}

/// The venue reported less filled after the cancel than the order has.
pub open spec fn fill_under_reported(order: Order) -> bool {
    match order.internal_props.filled_amount_after_cancellation {
        Some(after) => after < order.filled_amount,
        None => false,
    }
}

/// Whether the fills must be checked once the retry loop is over.
pub open spec fn fill_check_needed(order: Order, check_order_fills: bool) -> bool {
    let source = order.internal_props.cancellation_event_source_type;
    let error = order.internal_props.last_cancellation_error;
    &&& check_order_fills || missed_fill(order) || source == Some(EventSourceType::RestFallback) || (
    (source == Some(EventSourceType::WebSocket) || source == Some(EventSourceType::Rest)) && (error
        == Some(ExchangeErrorType::OrderNotFound) || error == Some(ExchangeErrorType::OrderCompleted)))
    &&& order.status != OrderStatus::Completed
}

/// Whether the coordinator itself must publish the cancel success.
pub open spec fn cancel_succeeded_event_needed(order: Order) -> bool {
    order.internal_props.canceled_not_from_wait_cancel_order && order.status != OrderStatus::Completed
}

impl Exchange {
    pub fn new(exchange_account_id: String, features: ExchangeFeatures) -> (r: Self)
        ensures
            r.exchange_account_id == exchange_account_id,
            r.features == features,
    {
        Exchange { exchange_account_id, features }
    }

    /// Whether the order must first be acknowledged by the venue.
    pub fn must_await_creation(&self, order: &Order) -> (r: bool)
        ensures
            r == (order.status == OrderStatus::Creating),
    {
        order.status == OrderStatus::Creating
    }

    /// Starts the work on an order: a terminal order needs none; otherwise the
    /// single-flight latch is set, and only the caller that set it runs the loop.
    pub fn begin_cancel_work(&self, order: &mut Order) -> (r: WorkStart)
        ensures
            is_terminal(old(order).status) ==> r == WorkStart::Finished && *final(order) == *old(order),
            !is_terminal(old(order).status) && old(order).internal_props.is_canceling_from_wait_cancel_order
                ==> r == WorkStart::AlreadyCanceling && *final(order) == *old(order),
            !is_terminal(old(order).status) && !old(order).internal_props.is_canceling_from_wait_cancel_order
                ==> r == WorkStart::RunCancelLoop,
            !is_terminal(old(order).status) ==> final(order).internal_props == latched(old(order).internal_props),
            final(order).status == old(order).status,
            final(order).client_order_id == old(order).client_order_id,
            final(order).exchange_order_id == old(order).exchange_order_id,
            final(order).fills == old(order).fills,
            final(order).filled_amount == old(order).filled_amount,
    {
        if order.is_finished() {
            return WorkStart::Finished;
        }
        if order.start_canceling_from_wait_cancel_order() {
            WorkStart::AlreadyCanceling
        } else {
            WorkStart::RunCancelLoop
        }
    }

    /// Whether the result of the cancel request is awaited at all: not where
    /// the venue confirms cancels by the fallback alone.
    pub fn cancel_request_enabled(&self) -> (r: bool)
        ensures
            r == (self.features.allowed_cancel_event_source_type != AllowedEventSourceType::FallbackOnly),
    {
        self.features.allowed_cancel_event_source_type != AllowedEventSourceType::FallbackOnly
    }

    /// The fallback timer fired: where every channel is allowed, cancel again;
    /// otherwise the venue failed to confirm as it must, which is an error.
    pub fn handle_fallback_timeout(&self) -> (r: Result<(), CancelError>)
        ensures
            r is Ok <==> self.features.allowed_cancel_event_source_type == AllowedEventSourceType::All,
            r is Err ==> r == Err::<(), CancelError>(CancelError::ExplicitCancelTimeout),
    {
        if self.features.allowed_cancel_event_source_type != AllowedEventSourceType::All {
            Err(CancelError::ExplicitCancelTimeout)
        } else {
            Ok(())
        }
    }

    /// One iteration of the retry loop: what to do with what finished first.
    pub fn race_outcome_action(&self, race: RaceOutcome) -> (r: Result<CancelledAction, CancelError>)
        requires
            race is CancelCompleted ==> self.features.allowed_cancel_event_source_type
                != AllowedEventSourceType::FallbackOnly,
        ensures
            match race {
                RaceOutcome::FallbackTimeout => if self.features.allowed_cancel_event_source_type
                    == AllowedEventSourceType::All {
                    r matches Ok(CancelledAction::Nothing)
                } else {
                    r == Err::<CancelledAction, CancelError>(CancelError::ExplicitCancelTimeout)
                },
                RaceOutcome::CancelCompleted(outcome) => r matches Ok(a) && cancelled_action_for(outcome, a),
            },
    {
        match race {
            RaceOutcome::FallbackTimeout => match self.handle_fallback_timeout() {
                Ok(()) => Ok(CancelledAction::Nothing),
                Err(e) => Err(e),
            },
            RaceOutcome::CancelCompleted(outcome) => Ok(order_cancelled_action(outcome)),
        }
    }

    /// Decides on the result of one status poll of an order whose cancel
    /// response could not be read. `exchange_error` is the error that started
    /// the polling, if any.
    pub fn cancellation_status_action(
        &self,
        order: &Order,
        order_info: Result<OrderInfo, ExchangeError>,
        exchange_error: Option<ExchangeError>,
    ) -> (r: Result<PollAction, CancelError>)
        ensures
            is_terminal(order.status) ==> r matches Ok(PollAction::OrderFinished),
            !is_terminal(order.status) ==> match order_info {
                Err(e) => if e.error_type == ExchangeErrorType::OrderNotFound {
                    match order.exchange_order_id {
                        Some(id) => r matches Ok(PollAction::ReportCancelFailed { exchange_order_id, error })
                            && exchange_order_id@ == id@ && match exchange_error {
                            Some(given) => error == given,
                            None => error.error_type == ExchangeErrorType::Unknown && error.code is None,
                        },
                        None => r matches Err(CancelError::MissingExchangeOrderId { client_order_id })
                            && client_order_id@ == order.client_order_id@,
                    }
                } else {
                    r matches Ok(PollAction::Retry)
                },
                Ok(info) => if info.order_status == OrderStatus::Canceled {
                    match order.exchange_order_id {
                        Some(id) => r matches Ok(
                            PollAction::ReportCancelSucceeded { client_order_id, exchange_order_id, filled_amount },
                        ) && client_order_id@ == order.client_order_id@ && exchange_order_id@ == id@
                            && filled_amount == info.filled_amount,
                        None => r matches Ok(PollAction::Stop),
                    }
                } else if info.order_status == OrderStatus::Completed {
                    r matches Ok(PollAction::CheckOrderFills)
                } else {
                    r matches Ok(PollAction::Stop)
                },
            },
    {
        if order.is_finished() {
            return Ok(PollAction::OrderFinished);
        }
        match order_info {
            Err(e) => {
                if e.error_type == ExchangeErrorType::OrderNotFound {
                    let error = match exchange_error {
                        Some(given) => given,
                        None => ExchangeError::new(
                            ExchangeErrorType::Unknown,
                            "No response came from the exchange, so the order was probably not being canceled".to_owned(),
                            None,
                        ),
                    };
                    match &order.exchange_order_id {
                        Some(id) => Ok(PollAction::ReportCancelFailed { exchange_order_id: id.clone(), error }),
                        None => Err(CancelError::MissingExchangeOrderId {
                            client_order_id: order.client_order_id.clone(),
                        }),
                    }
                } else {
                    Ok(PollAction::Retry)
                }
            },
            Ok(info) => {
                if info.order_status == OrderStatus::Canceled {
                    match &order.exchange_order_id {
                        Some(id) => Ok(PollAction::ReportCancelSucceeded {
                            client_order_id: order.client_order_id.clone(),
                            exchange_order_id: id.clone(),
                            filled_amount: info.filled_amount,
                        }),
                        None => Ok(PollAction::Stop),
                    }
                } else if info.order_status == OrderStatus::Completed {
                    Ok(PollAction::CheckOrderFills)
                } else {
                    Ok(PollAction::Stop)
                }
            },
        }
    }

    /// Whether a fill was missed: the venue reported more filled after the
    /// cancel than the order holds. Where it reported less, the venue is taken
    /// to be wrong and no fill counts as missed.
    pub fn has_missed_fill(&self, order: &Order) -> (r: bool)
        ensures
            r == missed_fill(*order),
            fill_under_reported(*order) ==> !r,
    {
        match order.internal_props.filled_amount_after_cancellation {
            Some(after) => {
                if after < order.filled_amount {
                    return false;
                }
                after > order.filled_amount
            },
            None => false,
        }
    }

    /// Whether the venue reported less filled after the cancel than the order holds.
    pub fn is_fill_under_reported(&self, order: &Order) -> (r: bool)
        ensures
            r == fill_under_reported(*order),
    {
        match order.internal_props.filled_amount_after_cancellation {
            Some(after) => after < order.filled_amount,
            None => false,
        }
    }

    /// Whether the fills must be checked after the retry loop: when the caller
    /// asked, when a fill was missed, when the cancel was confirmed by the
    /// fallback, or when it was confirmed by a push or REST channel after the
    /// venue had lost or completed the order; never for a completed order.
    pub fn needs_fill_check(&self, order: &Order, check_order_fills: bool) -> (r: bool)
        ensures
            r == fill_check_needed(*order, check_order_fills),
    {
        let source = order.internal_props.cancellation_event_source_type;
        let error = order.internal_props.last_cancellation_error;
        let by_source = match source {
            Some(EventSourceType::RestFallback) => true,
            Some(EventSourceType::WebSocket) | Some(EventSourceType::Rest) => match error {
                Some(ExchangeErrorType::OrderNotFound) | Some(ExchangeErrorType::OrderCompleted) => true,
                _ => false,
            },
            None => false,
        };
        (check_order_fills || self.has_missed_fill(order) || by_source) && order.status != OrderStatus::Completed
    }

    /// Whether the coordinator must publish the cancel success itself: the
    /// order was canceled through an unsolicited channel and did not complete.
    pub fn needs_cancel_succeeded_event(&self, order: &Order) -> (r: bool)
        ensures
            r == cancel_succeeded_event_needed(*order),
            order.status == OrderStatus::Completed ==> !r,
    {
        order.internal_props.canceled_not_from_wait_cancel_order && order.status != OrderStatus::Completed
    }
}

/// The internal state of an order once the single-flight latch is set.
pub open spec fn latched(p: OrderInternalProps) -> OrderInternalProps {
    OrderInternalProps { is_canceling_from_wait_cancel_order: true, ..p }
}

/// `a` is what follows the cancel request's `outcome`.
pub open spec fn cancelled_action_for(outcome: Option<CancelOrderResult>, a: CancelledAction) -> bool {
    match outcome {
        Some(CancelOrderResult { outcome: RequestResult::Error(e) }) => {
            if e.error_type == ExchangeErrorType::ParsingError {
                a == CancelledAction::PollStatus(e)
            } else if e.error_type == ExchangeErrorType::PendingError {
                a == CancelledAction::Sleep(e.pending_time_ms)
            } else if e.error_type == ExchangeErrorType::OrderCompleted {
                a is AwaitOrderFinish
            } else {
                a is Nothing
            }
        },
        _ => a is Nothing,
    }
}

/// What follows a cancel request's outcome: an unreadable response starts
/// the status polling, a pending error a wait, an order that completed meanwhile
/// a wait for its terminal event; anything else needs nothing.
pub fn order_cancelled_action(outcome: Option<CancelOrderResult>) -> (r: CancelledAction)
    ensures
        cancelled_action_for(outcome, r),
{
    match outcome {
        Some(result) => match result.outcome {
            RequestResult::Error(e) => {
                if e.error_type == ExchangeErrorType::ParsingError {
                    CancelledAction::PollStatus(e)
                } else if e.error_type == ExchangeErrorType::PendingError {
                    CancelledAction::Sleep(e.pending_time_ms)
                } else if e.error_type == ExchangeErrorType::OrderCompleted {
                    CancelledAction::AwaitOrderFinish
                } else {
                    CancelledAction::Nothing
                }
            },
            RequestResult::Success => CancelledAction::Nothing,
        },
        None => CancelledAction::Nothing,
    }
}

} // verus!
