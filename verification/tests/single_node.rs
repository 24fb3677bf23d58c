use rinha::app_state::SummaryQuery;
use rinha::database::{DbError, Stats};
use rinha::single_node::database::{listing_from_rows, PaymentPost, PaymentsDb};
use rinha::single_node::service::{
    after_existence_check, classify_get_outcome, classify_post_outcome, payment_status_url,
    send_start, AppState, AttemptAction, AttemptStep, GetPaymentResult, PaymentAttempt,
    PaymentTryResult, Processor, SendStep, SendToServiceResult, COOLDOWN_MILLIS,
};
use rinha::processing::HttpOutcome;

#[test]
fn test_payment_post() {
    let mut db = PaymentsDb::new().expect("Failed to initialize database");
    let payment = PaymentPost {
        correlation_id: "12345".to_string(),
        amount_cents: 10000,
        requested_at: "2025-07-15T12:34:56.000Z".to_string(),
    };
    db.insert_payment(&payment, "default")
        .expect("Failed to insert payment");

    let payments = db
        .get_range("2025-07-15T00:00:00.000Z", "2025-07-16T00:00:00.000Z")
        .expect("Failed to get range");
    assert_eq!(payments.get(0).unwrap(), &payment);
}

#[test]
fn get_range_lists_window_in_utc() {
    let mut db = PaymentsDb::new().unwrap();
    let shifted = PaymentPost {
        correlation_id: "a".to_string(),
        amount_cents: 5,
        requested_at: "2025-07-15T14:00:00.250+02:00".to_string(),
    };
    db.insert_payment(&shifted, "fallback").unwrap();
    let outside = PaymentPost {
        correlation_id: "b".to_string(),
        amount_cents: 6,
        requested_at: "2025-08-01T00:00:00.000Z".to_string(),
    };
    db.insert_payment(&outside, "default").unwrap();
    let listed = db
        .get_range("2025-07-15T00:00:00.000Z", "2025-07-16T00:00:00.000Z")
        .unwrap();
    assert_eq!(listed.len(), 1);
    assert_eq!(listed[0].correlation_id, "a");
    assert_eq!(listed[0].amount_cents, 5);
    assert_eq!(listed[0].requested_at, "2025-07-15T12:00:00.250Z");
}

#[test]
fn single_node_insert_errors() {
    let mut db = PaymentsDb::new().unwrap();
    let bad = PaymentPost {
        correlation_id: "x".to_string(),
        amount_cents: 1,
        requested_at: "not a time".to_string(),
    };
    assert_eq!(db.insert_payment(&bad, "default"), Err(DbError::InvalidDate));
    let good = PaymentPost { requested_at: "2025-07-15T12:00:00.000Z".to_string(), ..bad };
    assert_eq!(db.insert_payment(&good, "default"), Ok(()));
    assert_eq!(db.insert_payment(&good, "default"), Err(DbError::Storage));
    assert_eq!(db.get_range("nope", "2025-07-16T00:00:00.000Z"), Err(DbError::InvalidDate));
    assert_eq!(db.get_range("2025-07-15T00:00:00.000Z", "nope"), Err(DbError::InvalidDate));
    let all = db
        .get_range("2025-01-01T00:00:00.000Z", "2026-01-01T00:00:00.000Z")
        .unwrap();
    assert_eq!(all, vec![good]);
}

#[test]
fn get_range_empty_window() {
    let db = PaymentsDb::new().unwrap();
    assert_eq!(
        db.get_range("2025-07-16T00:00:00.000Z", "2025-07-15T00:00:00.000Z"),
        Ok(vec![])
    );
}

fn post(id: &str) -> rinha::database::PaymentPost {
    rinha::database::PaymentPost {
        correlation_id: id.to_string(),
        amount_cents: 1999,
        requested_at: "2025-07-15T12:00:00.000Z".to_string(),
        requested_at_ts: 1752580800000,
        processed_on: None,
    }
}

#[test]
fn attempt_goes_default_then_fallback_then_waits() {
    let attempt = PaymentAttempt::new(post("p"));
    assert_eq!(
        attempt.next_action(),
        AttemptAction::Send { processor: Processor::Default, is_retry: true }
    );
    let attempt = match attempt.on_send_result(SendToServiceResult::ErrRetry) {
        AttemptStep::Continue(a) => a,
        AttemptStep::Finished(_) => panic!("a failed send does not settle the payment"),
    };
    assert_eq!(
        attempt.next_action(),
        AttemptAction::Send { processor: Processor::Fallback, is_retry: true }
    );
    let attempt = match attempt.on_send_result(SendToServiceResult::ErrRetry) {
        AttemptStep::Continue(a) => a,
        AttemptStep::Finished(_) => panic!("a failed send does not settle the payment"),
    };
    assert_eq!(attempt.next_action(), AttemptAction::Sleep { millis: COOLDOWN_MILLIS });
    assert_eq!(COOLDOWN_MILLIS, 1000);
    let attempt = attempt.on_slept();
    assert_eq!(
        attempt.next_action(),
        AttemptAction::Send { processor: Processor::Default, is_retry: true }
    );
    assert_eq!(attempt.post().correlation_id, "p");
}

#[test]
fn attempt_credits_the_processor_that_answered() {
    match PaymentAttempt::new(post("a")).on_send_result(SendToServiceResult::Success) {
        AttemptStep::Finished(PaymentTryResult::CheapOk(p)) => assert_eq!(p, post("a")),
        _ => panic!("the default processor took the payment"),
    }
    let at_fallback = match PaymentAttempt::new(post("b")).on_send_result(SendToServiceResult::ErrRetry) {
        AttemptStep::Continue(a) => a,
        AttemptStep::Finished(_) => panic!("a failed send does not settle the payment"),
    };
    match at_fallback.on_send_result(SendToServiceResult::AlreadyProcessed) {
        AttemptStep::Finished(PaymentTryResult::FallbackOk(p)) => assert_eq!(p, post("b")),
        _ => panic!("the fallback processor had the payment"),
    }
}

#[test]
fn send_steps() {
    assert_eq!(send_start(true), SendStep::CheckExisting);
    assert_eq!(send_start(false), SendStep::Post);
    assert_eq!(
        after_existence_check(GetPaymentResult::IsCreated),
        SendStep::Finish(SendToServiceResult::AlreadyProcessed)
    );
    assert_eq!(after_existence_check(GetPaymentResult::Unknown), SendStep::Post);
    assert_eq!(classify_get_outcome(HttpOutcome::Responded(200)), GetPaymentResult::IsCreated);
    assert_eq!(classify_get_outcome(HttpOutcome::Responded(404)), GetPaymentResult::Unknown);
    assert_eq!(classify_get_outcome(HttpOutcome::Failed), GetPaymentResult::Unknown);
    assert_eq!(classify_post_outcome(HttpOutcome::Responded(201)), SendToServiceResult::Success);
    assert_eq!(classify_post_outcome(HttpOutcome::Responded(302)), SendToServiceResult::Success);
    assert_eq!(classify_post_outcome(HttpOutcome::Responded(422)), SendToServiceResult::ErrRetry);
    assert_eq!(classify_post_outcome(HttpOutcome::Responded(500)), SendToServiceResult::ErrRetry);
    assert_eq!(classify_post_outcome(HttpOutcome::TimedOut), SendToServiceResult::ErrRetry);
    assert_eq!(classify_post_outcome(HttpOutcome::Failed), SendToServiceResult::ErrRetry);
}

#[test]
fn urls_of_processors() {
    assert_eq!(Processor::Default.service_url(), "http://localhost:8001");
    assert_eq!(Processor::Fallback.service_url(), "http://localhost:8002");
    assert_eq!(
        payment_status_url("http://localhost:8001", "abc"),
        "http://localhost:8001/payments/abc"
    );
}

#[test]
fn app_state_records_and_summarises() {
    let mut state = AppState { db: rinha::database::PaymentsDb::new().unwrap() };
    state.record_result(PaymentTryResult::CheapOk(post("a"))).unwrap();
    state.record_result(PaymentTryResult::FallbackOk(post("b"))).unwrap();
    state.add_payment_cheap(post("c")).unwrap();
    assert_eq!(state.add_payment_fallback(post("c")), Err(DbError::Storage));
    let stats = state.get_state(&SummaryQuery::default()).unwrap();
    assert_eq!(
        stats,
        Stats { default_total: 3998, default_count: 2, fallback_total: 1999, fallback_count: 1 }
    );
    let later = SummaryQuery { from: Some("2025-07-16T00:00:00.000Z".to_string()), to: None };
    assert_eq!(state.get_state(&later).unwrap().default_count, 0);
    let bad = SummaryQuery { from: None, to: Some("tomorrow".to_string()) };
    assert_eq!(state.get_state(&bad), Err(DbError::InvalidDate));
}

fn range_row(id: &str, amount: i64, at: i64) -> Option<rinha::ledger::RangeRow> {
    Some(rinha::ledger::RangeRow { uuid: id.to_string(), amount, requested_at: at })
}

#[test]
fn listing_from_rows_outcomes() {
    let listed = listing_from_rows(&vec![range_row("a", 5, 1000), range_row("b", 7, 0)]).unwrap();
    assert_eq!(
        listed,
        vec![
            PaymentPost {
                correlation_id: "a".to_string(),
                amount_cents: 5,
                requested_at: "1970-01-01T00:00:01.000Z".to_string(),
            },
            PaymentPost {
                correlation_id: "b".to_string(),
                amount_cents: 7,
                requested_at: "1970-01-01T00:00:00.000Z".to_string(),
            },
        ]
    );
    assert_eq!(
        listing_from_rows(&vec![range_row("a", 5, i64::MAX), None]),
        Err(DbError::Storage)
    );
    assert_eq!(
        listing_from_rows(&vec![range_row("a", 5, 0), range_row("b", 5, i64::MAX)]),
        Err(DbError::TimestampOutOfRange)
    );
    assert_eq!(listing_from_rows(&vec![]), Ok(vec![]));
}
