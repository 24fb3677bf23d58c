use rinha::database::{stats_from_rows, DbError, PaymentKind, PaymentPost, PaymentsDb, Stats};
use rinha::ledger::KindTotal;

fn make_random_payment() -> PaymentPost {
    let id: String = (0..10).map(|_| fastrand::char('a'..='z')).collect();
    let requested_at = "2025-07-15T12:34:56.000Z".to_string();
    let utc_now = PaymentsDb::parse_date(&requested_at).unwrap();
    PaymentPost {
        correlation_id: id,
        amount_cents: fastrand::i64(0..10_000),
        requested_at,
        requested_at_ts: utc_now,
        processed_on: None,
    }
}

fn payment(id: &str, cents: i64, at: &str) -> PaymentPost {
    PaymentPost {
        correlation_id: id.to_string(),
        amount_cents: cents,
        requested_at: at.to_string(),
        requested_at_ts: PaymentsDb::parse_date(at).unwrap(),
        processed_on: None,
    }
}

#[test]
fn database_test_payment_post() {
    let mut db = PaymentsDb::new().expect("Failed to initialize database");
    let payment = make_random_payment();
    db.insert_payment(&payment, PaymentKind::Default)
        .expect("Failed to insert payment");

    let payment2 = make_random_payment();
    db.insert_payment(&payment2, PaymentKind::Default)
        .expect("Failed to insert payment");

    let stats = db
        .get_stats(
            Some("2025-07-15T00:00:00.000Z"),
            Some("2025-07-16T00:00:00.000Z"),
        )
        .expect("Failed to get range");
    assert_eq!(stats.default_count, 2);
    assert_eq!(stats.default_total, payment.amount_cents + payment2.amount_cents);
}

#[test]
fn parse_date_reads_milliseconds() {
    assert_eq!(PaymentsDb::parse_date("1970-01-01T00:00:01.000Z"), Ok(1000));
    assert_eq!(PaymentsDb::parse_date("2025-07-15T12:34:56.000Z"), Ok(1752582896000));
    assert_eq!(PaymentsDb::parse_date("1970-01-01T01:00:00.000+01:00"), Ok(0));
    assert_eq!(PaymentsDb::parse_date("yesterday"), Err(DbError::InvalidDate));
}

#[test]
fn kind_names() {
    assert_eq!(PaymentKind::Default.to_string(), "default");
    assert_eq!(PaymentKind::Fallback.to_string(), "fallback");
}

#[test]
fn cents_is_the_amount() {
    assert_eq!(payment("a", 1234, "2025-07-15T12:34:56.000Z").cents(), 1234);
}

#[test]
fn stats_split_by_kind_and_window() {
    let mut db = PaymentsDb::new().unwrap();
    db.insert_payment(&payment("a", 100, "2025-07-15T10:00:00.000Z"), PaymentKind::Default).unwrap();
    db.insert_payment(&payment("b", 250, "2025-07-15T11:00:00.000Z"), PaymentKind::Fallback).unwrap();
    db.insert_payment(&payment("c", 1000, "2025-07-15T12:00:00.000Z"), PaymentKind::Default).unwrap();
    db.insert_payment(&payment("d", 7, "2025-07-17T12:00:00.000Z"), PaymentKind::Default).unwrap();
    let stats = db
        .get_stats(Some("2025-07-15T00:00:00.000Z"), Some("2025-07-16T00:00:00.000Z"))
        .unwrap();
    assert_eq!(
        stats,
        Stats { default_total: 1100, default_count: 2, fallback_total: 250, fallback_count: 1 }
    );
    let all = db.get_stats(None, Some("2030-01-01T00:00:00.000Z")).unwrap();
    assert_eq!(all.default_count, 3);
    assert_eq!(all.default_total, 1107);
}

#[test]
fn window_bounds_are_included() {
    let mut db = PaymentsDb::new().unwrap();
    db.insert_payment(&payment("a", 100, "2025-07-15T10:00:00.000Z"), PaymentKind::Default).unwrap();
    let at_bound = db
        .get_stats(Some("2025-07-15T10:00:00.000Z"), Some("2025-07-15T10:00:00.000Z"))
        .unwrap();
    assert_eq!(at_bound.default_count, 1);
    let after = db
        .get_stats(Some("2025-07-15T10:00:00.001Z"), Some("2025-07-16T00:00:00.000Z"))
        .unwrap();
    assert_eq!(after.default_count, 0);
    assert_eq!(after.default_total, 0);
}

#[test]
fn stats_with_no_end_reach_now() {
    let mut db = PaymentsDb::new().unwrap();
    db.insert_payment(&payment("past", 5, "2001-01-01T00:00:00.000Z"), PaymentKind::Fallback).unwrap();
    db.insert_payment(&payment("future", 9, "2999-01-01T00:00:00.000Z"), PaymentKind::Fallback).unwrap();
    let stats = db.get_stats(None, None).unwrap();
    assert_eq!(stats.fallback_count, 1);
    assert_eq!(stats.fallback_total, 5);
}

#[test]
fn duplicate_correlation_id_is_refused() {
    let mut db = PaymentsDb::new().unwrap();
    db.insert_payment(&payment("dup", 100, "2025-07-15T10:00:00.000Z"), PaymentKind::Default).unwrap();
    assert_eq!(
        db.insert_payment(&payment("dup", 999, "2025-07-15T11:00:00.000Z"), PaymentKind::Fallback),
        Err(DbError::Storage)
    );
    let stats = db.get_stats(None, Some("2030-01-01T00:00:00.000Z")).unwrap();
    assert_eq!(
        stats,
        Stats { default_total: 100, default_count: 1, fallback_total: 0, fallback_count: 0 }
    );
}

#[test]
fn invalid_window_bounds() {
    let db = PaymentsDb::new().unwrap();
    assert_eq!(db.get_stats(Some("not a date"), None), Err(DbError::InvalidDate));
    assert_eq!(
        db.get_stats(Some("2025-07-15T00:00:00.000Z"), Some("soon")),
        Err(DbError::InvalidDate)
    );
}

#[test]
fn empty_ledger_summary_is_zero() {
    let db = PaymentsDb::new().unwrap();
    let stats = db.get_stats(None, None).unwrap();
    assert_eq!(
        stats,
        Stats { default_total: 0, default_count: 0, fallback_total: 0, fallback_count: 0 }
    );
}

fn row(kind: &str, total: i64, count: i64) -> Option<KindTotal> {
    Some(KindTotal { kind: kind.to_string(), total, count })
}

#[test]
fn stats_from_rows_reads_known_kinds() {
    let rows = vec![row("fallback", 30, 3), None, row("other", 1, 1), row("default", 12, 2)];
    assert_eq!(
        stats_from_rows(&rows),
        Stats { default_total: 12, default_count: 2, fallback_total: 30, fallback_count: 3 }
    );
    assert_eq!(
        stats_from_rows(&vec![None, row("other", 5, 5)]),
        Stats { default_total: 0, default_count: 0, fallback_total: 0, fallback_count: 0 }
    );
}

#[test]
fn stats_at_a_clock_reading() {
    let mut db = PaymentsDb::new().unwrap();
    db.insert_payment(&payment("early", 3, "1969-12-31T23:59:59.000Z"), PaymentKind::Default).unwrap();
    db.insert_payment(&payment("past", 5, "2001-01-01T00:00:00.000Z"), PaymentKind::Default).unwrap();
    db.insert_payment(&payment("later", 9, "2400-01-01T00:00:00.000Z"), PaymentKind::Default).unwrap();
    let now = PaymentsDb::parse_date("2100-01-01T00:00:00.000Z").unwrap();
    let stats = db.get_stats_at(None, None, now).unwrap();
    assert_eq!(stats.default_count, 1);
    assert_eq!(stats.default_total, 5);
    let at_later = PaymentsDb::parse_date("2400-01-01T00:00:00.000Z").unwrap();
    let stats = db.get_stats_at(None, None, at_later).unwrap();
    assert_eq!(stats.default_count, 2);
    assert_eq!(stats.default_total, 14);
    let bounded = db
        .get_stats_at(Some("1969-01-01T00:00:00.000Z"), Some("2002-01-01T00:00:00.000Z"), 0)
        .unwrap();
    assert_eq!(bounded.default_count, 2);
    assert_eq!(db.get_stats_at(Some("bad"), None, now), Err(DbError::InvalidDate));
}

#[test]
fn recorded_kind_defaults_to_default() {
    let mut p = payment("k", 1, "2025-07-15T12:34:56.000Z");
    assert_eq!(p.recorded_kind(), PaymentKind::Default);
    p.processed_on = Some(PaymentKind::Fallback);
    assert_eq!(p.recorded_kind(), PaymentKind::Fallback);
}
