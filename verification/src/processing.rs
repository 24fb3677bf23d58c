//! The decisions of the database service's payment worker: how the answer of
//! the default processor is read, when the worker tries again, and what it
//! records once the processor has taken the payment.
use vstd::prelude::*;
use vstd::string::StringExecFns;
use crate::database::{PaymentKind, PaymentPost};

verus! {

/// What came back from an HTTP request to a payment processor.
#[derive(Debug, Clone, Copy, PartialEq, Eq, Structural)]
pub enum HttpOutcome {
    /// No answer within the time allowed.
    TimedOut,
    /// The request failed before an answer with a status arrived.
    Failed,
    /// An answer with this status code.
    Responded(u16),
}

/// A status that `error_for_status` turns into an error: a client (4xx) or
/// server (5xx) error.
pub open spec fn is_error_status(code: u16) -> bool {
    400 <= code && code <= 599
}

/// Status 422 (Unprocessable Entity): the processor already has this payment.
pub open spec fn is_repeated_status(code: u16) -> bool {
    code == 422
}

/// Why a processor did not take the payment.
#[derive(Debug, Clone, Copy, PartialEq, Eq, Structural)]
pub enum ServiceError {
    Timeout,
    Transport,
    Status(u16),
}

/// How a payment processor answered.
#[derive(Debug, Clone, Copy, PartialEq, Eq, Structural)]
pub enum SendToServiceResult {
    /// The processor took the payment.
    Success,
    /// The processor did not take it; try again.
    ErrRetry(ServiceError),
    /// The processor had already taken it.
    ErrRepeated(ServiceError),
}

/// The answer to a payment posted to a processor: success for a non-error
/// status, `ErrRepeated` for status 422, `ErrRetry` for a timeout, a failed
/// request or any other error status.
pub fn classify_post_outcome(outcome: HttpOutcome) -> (result: SendToServiceResult)
    ensures
        result == match outcome {
            HttpOutcome::TimedOut => SendToServiceResult::ErrRetry(ServiceError::Timeout),
            HttpOutcome::Failed => SendToServiceResult::ErrRetry(ServiceError::Transport),
            HttpOutcome::Responded(code) => if !is_error_status(code) {
                SendToServiceResult::Success
            } else if is_repeated_status(code) {
                SendToServiceResult::ErrRepeated(ServiceError::Status(code))
            } else {
                SendToServiceResult::ErrRetry(ServiceError::Status(code))
            },
        },
        outcome == HttpOutcome::Responded(422) ==> result == SendToServiceResult::ErrRepeated(ServiceError::Status(422)),
        forall|code: u16|
            400 <= code <= 599 && code != 422 && outcome == HttpOutcome::Responded(code) ==> result
                == SendToServiceResult::ErrRetry(ServiceError::Status(code)),
        forall|code: u16|
            (code < 400 || code > 599) && outcome == HttpOutcome::Responded(code) ==> result
                == SendToServiceResult::Success,
        result is ErrRepeated ==> outcome == HttpOutcome::Responded(422),
        result is Success ==> exists|code: u16| (code < 400 || code > 599) && outcome == HttpOutcome::Responded(code),
{
    match outcome {
        HttpOutcome::TimedOut => SendToServiceResult::ErrRetry(ServiceError::Timeout),
        HttpOutcome::Failed => SendToServiceResult::ErrRetry(ServiceError::Transport),
        HttpOutcome::Responded(code) => {
            if code < 400 || code > 599 {
                SendToServiceResult::Success
            } else if code == 422 {
                SendToServiceResult::ErrRepeated(ServiceError::Status(code))
            } else {
                SendToServiceResult::ErrRetry(ServiceError::Status(code))
            }
        },
    }
}

/// An answer is an error exactly when its status lies in 400..=599 (client
/// and server errors), and only status 422 means the processor already has the
/// payment.
pub proof fn lemma_error_statuses_by_number(code: u16)
    ensures
        is_error_status(code) <==> (400 <= code && code <= 599),
        is_repeated_status(code) <==> code == 422,
        is_repeated_status(code) ==> is_error_status(code),
{
}

/// Milliseconds the worker waits before posting a payment again.
pub const TIME_BEFORE_RETRY_MILLI: u64 = 500;

/// What the worker does after an answer of the processor.
#[derive(Debug, Clone, Copy, PartialEq, Eq, Structural)]
pub enum WorkerStep {
    /// The payment is settled with the default processor.
    Finished,
    /// Wait this many milliseconds, then post the payment again.
    RetryAfter(u64),
}

/// The worker is done once the processor took the payment or already had it;
/// otherwise it waits `TIME_BEFORE_RETRY_MILLI` and posts again.
pub fn after_send(result: &SendToServiceResult) -> (step: WorkerStep)
    ensures
        step == match result {
            SendToServiceResult::ErrRetry(_) => WorkerStep::RetryAfter(TIME_BEFORE_RETRY_MILLI),
            _ => WorkerStep::Finished,
        },
{
    match result {
        SendToServiceResult::ErrRetry(_) => WorkerStep::RetryAfter(TIME_BEFORE_RETRY_MILLI),
        _ => WorkerStep::Finished,
    }
}

/// The outcome of forwarding a payment: the default processor has it.
pub enum PaymentTryResult {
    CheapOk(PaymentPost),
}

impl PaymentTryResult {
    /// The payment to record: the same payment, marked as processed by the
    /// default processor.
    pub fn into_recorded_payment(self) -> (payment: PaymentPost)
        ensures
            payment == (match self {
                PaymentTryResult::CheapOk(p) => PaymentPost { processed_on: Some(PaymentKind::Default), ..p },
            }),
    {
        match self {
            PaymentTryResult::CheapOk(mut payment) => {
                payment.processed_on = Some(PaymentKind::Default);
                payment
            },
        }
    }
}

/// The URLs the worker posts payments to.
pub struct WorkerEndpoints {
    pub default_service_url: String,
    pub fallback_service_url: String,
}

/// The `/payments` endpoint under a processor's base URL.
pub open spec fn payments_endpoint(base: Seq<char>) -> Seq<char> {
    base + "/payments"@
}

/// Builds the `/payments` endpoint under a processor's base URL.
pub fn payments_url(base: &str) -> (url: String)
    ensures
        url@ == payments_endpoint(base@),
{
    base.to_owned().concat("/payments")
}

impl WorkerEndpoints {
    /// The `/payments` endpoints of the two processors, from the configured
    /// base URLs, or `http://localhost:8001` and `http://localhost:8002` where
    /// none is configured.
    pub fn new(default_base: Option<String>, fallback_base: Option<String>) -> (e: WorkerEndpoints)
        ensures
            e.default_service_url@ == payments_endpoint(
                match default_base {
                    Some(b) => b@,
                    None => "http://localhost:8001"@,
                },
            ),
            e.fallback_service_url@ == payments_endpoint(
                match fallback_base {
                    Some(b) => b@,
                    None => "http://localhost:8002"@,
                },
            ),
    {
        let default_base = match default_base {
            Some(b) => b,
            None => "http://localhost:8001".to_owned(),
        };
        let fallback_base = match fallback_base {
            Some(b) => b,
            None => "http://localhost:8002".to_owned(),
        };
        WorkerEndpoints {
            default_service_url: payments_url(default_base.as_str()),
            fallback_service_url: payments_url(fallback_base.as_str()),
        }
    }
}

} // verus!
