use rinha::app_state::{summary_url, SummaryQuery, WebsocketMessage};
use rinha::database::{PaymentKind, PaymentPost};
use rinha::http_routes::{accepts, endpoint_of, Endpoint, HttpMethod};
use rinha::processing::{
    after_send, classify_post_outcome, payments_url, HttpOutcome, PaymentTryResult,
    SendToServiceResult, ServiceError, WorkerEndpoints, WorkerStep, TIME_BEFORE_RETRY_MILLI,
};
use rinha::redirect::RoundRobin;
use rinha::stealing_queue::{InnerValues, PopOutcome};
use rinha::PaymentGet;

#[test]
fn worker_reads_processor_answers() {
    assert_eq!(classify_post_outcome(HttpOutcome::Responded(200)), SendToServiceResult::Success);
    assert_eq!(
        classify_post_outcome(HttpOutcome::Responded(422)),
        SendToServiceResult::ErrRepeated(ServiceError::Status(422))
    );
    assert_eq!(
        classify_post_outcome(HttpOutcome::Responded(503)),
        SendToServiceResult::ErrRetry(ServiceError::Status(503))
    );
    assert_eq!(
        classify_post_outcome(HttpOutcome::TimedOut),
        SendToServiceResult::ErrRetry(ServiceError::Timeout)
    );
    assert_eq!(
        classify_post_outcome(HttpOutcome::Failed),
        SendToServiceResult::ErrRetry(ServiceError::Transport)
    );
}

#[test]
fn worker_retries_until_settled() {
    assert_eq!(after_send(&SendToServiceResult::Success), WorkerStep::Finished);
    assert_eq!(
        after_send(&SendToServiceResult::ErrRepeated(ServiceError::Status(422))),
        WorkerStep::Finished
    );
    assert_eq!(
        after_send(&SendToServiceResult::ErrRetry(ServiceError::Timeout)),
        WorkerStep::RetryAfter(TIME_BEFORE_RETRY_MILLI)
    );
    assert_eq!(TIME_BEFORE_RETRY_MILLI, 500);
}

#[test]
fn settled_payment_is_marked_default() {
    let post = PaymentPost {
        correlation_id: "c".to_string(),
        amount_cents: 42,
        requested_at: "2025-07-15T12:00:00.000Z".to_string(),
        requested_at_ts: 1752580800000,
        processed_on: None,
    };
    let recorded = PaymentTryResult::CheapOk(post.clone()).into_recorded_payment();
    assert_eq!(recorded, PaymentPost { processed_on: Some(PaymentKind::Default), ..post });
}

#[test]
fn worker_endpoints() {
    let configured = WorkerEndpoints::new(Some("http://a:1".to_string()), None);
    assert_eq!(configured.default_service_url, "http://a:1/payments");
    assert_eq!(configured.fallback_service_url, "http://localhost:8002/payments");
    let defaults = WorkerEndpoints::new(None, Some("http://b".to_string()));
    assert_eq!(defaults.default_service_url, "http://localhost:8001/payments");
    assert_eq!(defaults.fallback_service_url, "http://b/payments");
    assert_eq!(payments_url("x"), "x/payments");
}

#[test]
fn queue_is_last_in_first_out() {
    let mut q = InnerValues::new();
    assert!(matches!(q.pop(), PopOutcome::Empty));
    assert_eq!(q.push(1), Some(()));
    assert_eq!(q.push(2), Some(()));
    assert_eq!(q.push(3), Some(()));
    assert!(matches!(q.pop(), PopOutcome::Item(3)));
    assert!(matches!(q.pop(), PopOutcome::Item(2)));
    assert_eq!(q.push(4), Some(()));
    assert!(matches!(q.pop(), PopOutcome::Item(4)));
    assert!(matches!(q.pop(), PopOutcome::Item(1)));
    assert!(matches!(q.pop(), PopOutcome::Empty));
}

#[test]
fn closed_queue_refuses_and_stops_workers() {
    let mut q = InnerValues::new();
    assert_eq!(q.push("a"), Some(()));
    q.close();
    assert_eq!(q.push("b"), None);
    assert!(matches!(q.pop(), PopOutcome::Closed));
    assert!(matches!(q.pop(), PopOutcome::Closed));
}

#[test]
fn round_robin_cycles() {
    let mut rr = RoundRobin::new(3);
    let picks: Vec<usize> = (0..7).map(|_| rr.next_target()).collect();
    assert_eq!(picks, vec![0, 1, 2, 0, 1, 2, 0]);
    let mut single = RoundRobin::new(1);
    assert_eq!(single.next_target(), 0);
    assert_eq!(single.next_target(), 0);
}

#[test]
fn routes() {
    assert_eq!(endpoint_of("/payments"), Endpoint::Payments);
    assert_eq!(endpoint_of("/payments-summary"), Endpoint::Summary);
    assert_eq!(endpoint_of("/payments/"), Endpoint::Unknown);
    assert_eq!(endpoint_of("/"), Endpoint::Unknown);
    assert!(accepts(Endpoint::Payments, HttpMethod::Post));
    assert!(!accepts(Endpoint::Payments, HttpMethod::Get));
    assert!(accepts(Endpoint::Summary, HttpMethod::Get));
    assert!(!accepts(Endpoint::Summary, HttpMethod::Post));
    assert!(!accepts(Endpoint::Unknown, HttpMethod::Other));
}

#[test]
fn summary_query_default_is_unbounded() {
    let q = SummaryQuery::default();
    assert!(q.from.is_none());
    assert!(q.to.is_none());
}

#[test]
fn db_service_summary_url() {
    assert_eq!(summary_url("db:8080", None), "http://db:8080/payments-summary");
    assert_eq!(
        summary_url("db:8080", Some("from=a&to=b")),
        "http://db:8080/payments-summary?from=a&to=b"
    );
}

#[test]
fn websocket_payloads() {
    let msg = WebsocketMessage::Payment(vec![vec![1, 2], vec![3]]);
    assert_eq!(msg.payloads(), vec![vec![1, 2], vec![3]]);
    assert!(WebsocketMessage::Nothing.payloads().is_empty());
}

#[test]
fn payment_get_to_post_keeps_id_and_amount() {
    let get = PaymentGet { correlation_id: "id-1".to_string(), amount_cents: 1990 };
    let post = get.to_payment_post();
    assert_eq!(post.correlation_id, "id-1");
    assert_eq!(post.amount_cents, 1990);
    assert_eq!(post.processed_on, None);
    assert!(post.requested_at.len() >= 24);
    let at = rinha::database::PaymentsDb::parse_date(&post.requested_at).unwrap();
    assert_eq!(at, post.requested_at_ts);
}
