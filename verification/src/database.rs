//! The payments ledger of the database service: payments recorded with the
//! processor that took them, and the per-processor summary over a time window.
use vstd::prelude::*;
use crate::dates::{parse_rfc3339_millis, rfc3339_millis, utc_now_millis};
use crate::ledger::{
    KindTotal, Table, all_read, in_window, window_abs_total, group_row_correct, kind_count, kind_rows_match, kind_total,
    lemma_insert_updates_kind_totals, lemma_no_payment_zero_total, lemma_wider_window_counts_more,
};
use crate::sql_store::{
    create_payments_table, has_payments_table, insert_payment_row, open_connection, payments_table, query_kind_totals,
};

verus! {

/// A player record (name, kills, deaths); nothing in the ledger uses it.
pub struct DBPlayer {
    name: String,
    kills: usize,
    deaths: usize,
}

/// The payment processor that accepted a payment.
#[derive(Debug, Clone, Copy, PartialEq, Eq, Structural)]
pub enum PaymentKind {
    Default,
    Fallback,
}

impl PaymentKind {
    /// The name under which the ledger stores the kind.
    pub open spec fn name(self) -> Seq<char> {
        match self {
            PaymentKind::Default => "default"@,
            PaymentKind::Fallback => "fallback"@,
        }
    }

    /// The kind's name: `"default"` or `"fallback"`.
    pub fn to_string(&self) -> (s: String)
        ensures
            s@ == self.name(),
    {
        match self {
            PaymentKind::Default => "default".to_owned(),
            PaymentKind::Fallback => "fallback".to_owned(),
        }
    }
}

/// A payment as sent to a processor and recorded in the ledger. The amount is
/// held in cents.
#[derive(Debug, Clone, PartialEq)]
pub struct PaymentPost {
    pub correlation_id: String,
    pub amount_cents: i64,
    /// RFC 3339 text of the request time, for example `2025-07-15T12:34:56.000Z`.
    pub requested_at: String,
    /// The request time in milliseconds since the Unix epoch.
    pub requested_at_ts: i64,
    /// The processor that accepted the payment, once one has.
    pub processed_on: Option<PaymentKind>,
}

impl PaymentPost {
    /// The kind under which the payment is recorded: the processor that
    /// accepted it, the default one when none is noted.
    pub fn recorded_kind(&self) -> (kind: PaymentKind)
        ensures
            kind == match self.processed_on {
                Some(k) => k,
                None => PaymentKind::Default,
            },
    {
        match self.processed_on {
            Some(k) => k,
            None => PaymentKind::Default,
        }
    }

    /// The amount in cents.
    pub fn cents(&self) -> (c: i64)
        ensures
            c == self.amount_cents,
    {
        self.amount_cents
    }
}

/// Why a ledger operation failed.
#[derive(Debug, Clone, Copy, PartialEq, Eq, Structural)]
pub enum DbError {
    /// A bound of the window is not RFC 3339 text.
    InvalidDate,
    /// SQLite refused the statement.
    Storage,
    /// A stored instant lies outside the range that can be written as RFC 3339.
    TimestampOutOfRange,
}

/// Per-processor summary of a window: number of payments and sum of their
/// amounts in cents.
#[derive(Debug, Clone, Copy, PartialEq, Eq, Structural)]
pub struct Stats {
    pub default_total: i64,
    pub default_count: usize,
    pub fallback_total: i64,
    pub fallback_count: usize,
}

impl Stats {
    /// No payment of either kind.
    pub open spec fn zero() -> Stats {
        Stats { default_total: 0, default_count: 0, fallback_total: 0, fallback_count: 0 }
    }

    /// The summary after reading one row of the per-kind query: a row of kind
    /// `default` or `fallback` sets that kind's figures; any other row, or a
    /// row that failed to be read, changes nothing.
    pub open spec fn with_row(self, row: Option<KindTotal>) -> Stats {
        match row {
            None => self,
            Some(r) => if r.kind@ == "default"@ {
                Stats { default_total: r.total, default_count: r.count as usize, ..self }
            } else if r.kind@ == "fallback"@ {
                Stats { fallback_total: r.total, fallback_count: r.count as usize, ..self }
            } else {
                self
            },
        }
    }
}

/// The summary built from the rows of the per-kind query, read in order.
pub open spec fn stats_of_rows(rows: Seq<Option<KindTotal>>) -> Stats
    decreases rows.len(),
{
    if rows.len() == 0 {
        Stats::zero()
    } else {
        stats_of_rows(rows.drop_last()).with_row(rows.last())
    }
}

/// Builds the summary from the rows of the per-kind query: rows that failed to
/// be read are skipped, a `default` or `fallback` row gives that kind's total
/// and count.
pub fn stats_from_rows(rows: &Vec<Option<KindTotal>>) -> (stats: Stats)
    ensures
        stats == stats_of_rows(rows@),
{
    let default_name = "default".to_owned();
    let fallback_name = "fallback".to_owned();
    let mut stats = Stats { default_total: 0, default_count: 0, fallback_total: 0, fallback_count: 0 };
    let mut i: usize = 0;
    while i < rows.len()
        invariant
            i <= rows.len(),
            default_name@ == "default"@,
            fallback_name@ == "fallback"@,
            stats == stats_of_rows(rows@.take(i as int)),
        decreases rows.len() - i,
    {
        proof {
            assert(rows@.take(i as int + 1).drop_last() =~= rows@.take(i as int));
        }
        match &rows[i] {
            Some(row) => {
                if row.kind == default_name {
                    stats.default_total = row.total;
                    stats.default_count = row.count as usize;
                } else if row.kind == fallback_name {
                    stats.fallback_total = row.total;
                    stats.fallback_count = row.count as usize;
                }
            },
            None => {},
        }
        i = i + 1;
    }
    proof {
        assert(rows@.take(rows@.len() as int) =~= rows@);
    }
    stats
}

/// Among the first `n` rows, one was read and is of kind `kind`.
spec fn has_row_of_kind(rows: Seq<Option<KindTotal>>, n: int, kind: Seq<char>) -> bool {
    exists|i: int| 0 <= i < n && (#[trigger] rows[i]) is Some && rows[i]->Some_0.kind@ == kind
}

/// The figures of one kind in a summary: the window's exact figures when a
/// row of that kind was read, zero otherwise.
spec fn kind_figures_read(
    t: Table,
    from: int,
    to: int,
    rows: Seq<Option<KindTotal>>,
    n: int,
    kind: Seq<char>,
    count: usize,
    total: i64,
) -> bool {
    &&& has_row_of_kind(rows, n, kind) ==> count == kind_count(t, kind, from, to) as usize && total
        == kind_total(t, kind, from, to)
    &&& !has_row_of_kind(rows, n, kind) ==> count == 0 && total == 0
}

proof fn lemma_stats_prefix(t: Table, from: int, to: int, rows: Seq<Option<KindTotal>>, n: int)
    requires
        kind_rows_match(t, from, to, rows),
        0 <= n <= rows.len(),
    ensures
        kind_figures_read(t, from, to, rows, n, "default"@, stats_of_rows(rows.take(n)).default_count, stats_of_rows(rows.take(n)).default_total),
        kind_figures_read(t, from, to, rows, n, "fallback"@, stats_of_rows(rows.take(n)).fallback_count, stats_of_rows(rows.take(n)).fallback_total),
    decreases n,
{
    reveal_strlit("default");
    reveal_strlit("fallback");
    assert("default"@.len() != "fallback"@.len());
    if n == 0 {
        assert(rows.take(0) =~= Seq::<Option<KindTotal>>::empty());
    } else {
        lemma_stats_prefix(t, from, to, rows, n - 1);
        assert(rows.take(n).drop_last() =~= rows.take(n - 1));
        assert(rows.take(n).last() == rows[n - 1]);
        let last = rows[n - 1];
        if last is Some {
            let r = last->Some_0;
            assert(group_row_correct(t, from, to, r));
            assert forall|i: int| 0 <= i < n - 1 && (#[trigger] rows[i]) is Some implies rows[i]->Some_0.kind@ != r.kind@ by {
                assert(rows[n - 1] is Some);
            }
            assert(has_row_of_kind(rows, n, r.kind@));
            if r.kind@ == "default"@ {
                assert(!has_row_of_kind(rows, n - 1, "default"@));
                assert(has_row_of_kind(rows, n, "fallback"@) == has_row_of_kind(rows, n - 1, "fallback"@));
            } else if r.kind@ == "fallback"@ {
                assert(!has_row_of_kind(rows, n - 1, "fallback"@));
                assert(has_row_of_kind(rows, n, "default"@) == has_row_of_kind(rows, n - 1, "default"@));
            } else {
                assert(has_row_of_kind(rows, n, "fallback"@) == has_row_of_kind(rows, n - 1, "fallback"@));
                assert(has_row_of_kind(rows, n, "default"@) == has_row_of_kind(rows, n - 1, "default"@));
            }
        } else {
            assert(has_row_of_kind(rows, n, "fallback"@) == has_row_of_kind(rows, n - 1, "fallback"@));
            assert(has_row_of_kind(rows, n, "default"@) == has_row_of_kind(rows, n - 1, "default"@));
        }
    }
}

/// Each kind's figures in a summary are either that kind's exact count and
/// total over the window, or both zero (when no row of the kind was read).
pub proof fn lemma_stats_exact_or_zero(t: Table, from: int, to: int, rows: Seq<Option<KindTotal>>)
    requires
        kind_rows_match(t, from, to, rows),
    ensures
        (stats_of_rows(rows).default_count == kind_count(t, "default"@, from, to) as usize
            && stats_of_rows(rows).default_total == kind_total(t, "default"@, from, to))
            || (stats_of_rows(rows).default_count == 0 && stats_of_rows(rows).default_total == 0),
        (stats_of_rows(rows).fallback_count == kind_count(t, "fallback"@, from, to) as usize
            && stats_of_rows(rows).fallback_total == kind_total(t, "fallback"@, from, to))
            || (stats_of_rows(rows).fallback_count == 0 && stats_of_rows(rows).fallback_total == 0),
{
    lemma_stats_prefix(t, from, to, rows, rows.len() as int);
    assert(rows.take(rows.len() as int) =~= rows);
}

/// When every row of the per-kind query was read, the summary gives each kind
/// exactly the number of its payments in the window and the sum of their
/// amounts.
pub proof fn lemma_stats_exact_when_all_read(t: Table, from: int, to: int, rows: Seq<Option<KindTotal>>)
    requires
        t.dom().finite(),
        kind_rows_match(t, from, to, rows),
        all_read(rows),
    ensures
        stats_of_rows(rows).default_count == kind_count(t, "default"@, from, to) as usize,
        stats_of_rows(rows).default_total == kind_total(t, "default"@, from, to),
        stats_of_rows(rows).fallback_count == kind_count(t, "fallback"@, from, to) as usize,
        stats_of_rows(rows).fallback_total == kind_total(t, "fallback"@, from, to),
{
    lemma_stats_prefix(t, from, to, rows, rows.len() as int);
    assert(rows.take(rows.len() as int) =~= rows);
    if kind_count(t, "default"@, from, to) == 0 {
        lemma_no_payment_zero_total(t, "default"@, from, to);
    } else {
        assert(has_row_of_kind(rows, rows.len() as int, "default"@));
    }
    if kind_count(t, "fallback"@, from, to) == 0 {
        lemma_no_payment_zero_total(t, "fallback"@, from, to);
    } else {
        assert(has_row_of_kind(rows, rows.len() as int, "fallback"@));
    }
}

/// The text of an optional bound.
pub open spec fn text_of(bound: Option<&str>) -> Option<Seq<char>> {
    match bound {
        Some(text) => Some(text@),
        None => None,
    }
}

/// The start of a summary window in milliseconds: chrono's reading of the
/// text, or the Unix epoch when no start is given.
pub open spec fn window_start(from: Option<Seq<char>>) -> Option<i64> {
    match from {
        Some(text) => rfc3339_millis(text),
        None => Some(0i64),
    }
}

/// A bound of the window that is given is not RFC 3339 text.
pub open spec fn window_invalid(from: Option<Seq<char>>, to: Option<Seq<char>>) -> bool {
    window_start(from) is None || (to is Some && rfc3339_millis(to->Some_0) is None)
}

/// The end of a summary window in milliseconds: chrono's reading of the
/// text, or `now` when no end is given.
pub open spec fn window_end(to: Option<Seq<char>>, now: i64) -> Option<i64> {
    match to {
        Some(text) => rfc3339_millis(text),
        None => Some(now),
    }
}

/// What a summary of the window `[from, to]` of table `t`, read when the clock
/// says `now`, may be: `InvalidDate` exactly when a given bound is not RFC 3339
/// text; otherwise a failure of the per-kind query (`Storage`), or the summary
/// built from rows that the query may return for the window, which starts at
/// the Unix epoch when `from` is absent and ends at `now` when `to` is absent.
pub open spec fn summary_of_window(
    t: Table,
    from: Option<Seq<char>>,
    to: Option<Seq<char>>,
    now: i64,
    r: Result<Stats, DbError>,
) -> bool {
    &&& (r is Err && r->Err_0 == DbError::InvalidDate) <==> window_invalid(from, to)
    &&& r is Err ==> r->Err_0 == DbError::InvalidDate || r->Err_0 == DbError::Storage
    &&& !window_invalid(from, to) ==> (r is Err && r->Err_0 == DbError::Storage) || exists|
        rows: Seq<Option<KindTotal>>,
    |
        #[trigger] kind_rows_match(
            t,
            window_start(from)->Some_0 as int,
            window_end(to, now)->Some_0 as int,
            rows,
        ) && r is Ok && r->Ok_0 == stats_of_rows(rows)
}

/// A window whose end is given does not depend on the clock.
pub proof fn lemma_bounded_window_ignores_clock(
    t: Table,
    from: Option<Seq<char>>,
    to: Option<Seq<char>>,
    now1: i64,
    now2: i64,
    r: Result<Stats, DbError>,
)
    requires
        to is Some,
        summary_of_window(t, from, to, now1, r),
    ensures
        summary_of_window(t, from, to, now2, r),
{
    assert(window_end(to, now1) == window_end(to, now2));
}

/// The exact summary of the window `[from, to]` of table `t`: each kind's
/// number of payments and the sum of their amounts.
pub open spec fn exact_stats(t: Table, from: int, to: int) -> Stats {
    Stats {
        default_total: kind_total(t, "default"@, from, to) as i64,
        default_count: kind_count(t, "default"@, from, to) as usize,
        fallback_total: kind_total(t, "fallback"@, from, to) as i64,
        fallback_count: kind_count(t, "fallback"@, from, to) as usize,
    }
}

/// What a summary of a well-formed ledger owes: for a valid window a result,
/// and, when the amounts of the window taken without sign sum to at most
/// `i64::MAX` (so that no sum overflows), the exact summary of the window.
pub open spec fn summary_owed(
    t: Table,
    from: Option<Seq<char>>,
    to: Option<Seq<char>>,
    now: i64,
    r: Result<Stats, DbError>,
) -> bool {
    &&& !window_invalid(from, to) ==> r is Ok
    &&& !window_invalid(from, to) && window_abs_total(
        t,
        window_start(from)->Some_0 as int,
        window_end(to, now)->Some_0 as int,
    ) <= i64::MAX ==> r->Ok_0 == exact_stats(
        t,
        window_start(from)->Some_0 as int,
        window_end(to, now)->Some_0 as int,
    )
}

/// A payment recorded under a fresh correlation id, requested within
/// `[from, to]`, adds one to its kind's count and its amount to its kind's
/// total in the exact summary of that window; the other kind's figures stay as
/// they were.
pub proof fn lemma_recorded_payment_in_summary(
    before: Table,
    after: Table,
    post: PaymentPost,
    kind: PaymentKind,
    r: Result<(), DbError>,
    from: int,
    to: int,
)
    requires
        before.dom().finite(),
        recorded(before, after, post, kind, r),
        r is Ok,
        from <= post.requested_at_ts <= to,
    ensures
        kind == PaymentKind::Default ==> {
            &&& kind_total(after, "default"@, from, to) == kind_total(before, "default"@, from, to) + post.amount_cents
            &&& exact_stats(after, from, to).default_count == (kind_count(before, "default"@, from, to) + 1) as usize
            &&& exact_stats(after, from, to).fallback_total == exact_stats(before, from, to).fallback_total
            &&& exact_stats(after, from, to).fallback_count == exact_stats(before, from, to).fallback_count
        },
        kind == PaymentKind::Fallback ==> {
            &&& kind_total(after, "fallback"@, from, to) == kind_total(before, "fallback"@, from, to) + post.amount_cents
            &&& exact_stats(after, from, to).fallback_count == (kind_count(before, "fallback"@, from, to) + 1) as usize
            &&& exact_stats(after, from, to).default_total == exact_stats(before, from, to).default_total
            &&& exact_stats(after, from, to).default_count == exact_stats(before, from, to).default_count
        },
{
    reveal_strlit("default");
    reveal_strlit("fallback");
    assert("default"@.len() != "fallback"@.len());
    let row = (post.amount_cents, post.requested_at_ts, kind.name());
    lemma_insert_updates_kind_totals(before, post.correlation_id@, row, "default"@, from, to);
    lemma_insert_updates_kind_totals(before, post.correlation_id@, row, "fallback"@, from, to);
}

/// Widening the window never lowers a count in the exact summary (while the
/// counts fit in a `usize`).
pub proof fn lemma_wider_summary_counts_more(t: Table, from1: int, to1: int, from2: int, to2: int)
    requires
        t.dom().finite(),
        from2 <= from1,
        to1 <= to2,
        kind_count(t, "default"@, from2, to2) <= usize::MAX,
        kind_count(t, "fallback"@, from2, to2) <= usize::MAX,
    ensures
        exact_stats(t, from1, to1).default_count <= exact_stats(t, from2, to2).default_count,
        exact_stats(t, from1, to1).fallback_count <= exact_stats(t, from2, to2).fallback_count,
{
    lemma_wider_window_counts_more(t, "default"@, from1, to1, from2, to2);
    lemma_wider_window_counts_more(t, "fallback"@, from1, to1, from2, to2);
}

/// What recording `post` as accepted by `kind` does to the table: a payment
/// whose correlation id is already recorded is refused; a refused payment
/// leaves the table as it was; an accepted one is added with its amount,
/// request time and kind.
pub open spec fn recorded(
    before: Table,
    after: Table,
    post: PaymentPost,
    kind: PaymentKind,
    r: Result<(), DbError>,
) -> bool {
    &&& before.dom().contains(post.correlation_id@) ==> r is Err
    &&& r is Ok ==> after == before.insert(
        post.correlation_id@,
        (post.amount_cents, post.requested_at_ts, kind.name()),
    )
    &&& r is Err ==> r->Err_0 == DbError::Storage && after == before
    &&& before.dom().finite() ==> after.dom().finite()
}

/// The payments ledger, kept in an in-memory SQLite database.
pub struct PaymentsDb {
    conn: rusqlite::Connection,
}

impl PaymentsDb {
    /// The stored payments.
    pub closed spec fn table(&self) -> Table {
        payments_table(self.conn)
    }

    /// The database holds the `payments` table.
    pub closed spec fn has_table(&self) -> bool {
        has_payments_table(self.conn)
    }

    /// The ledger's table exists and holds finitely many payments.
    pub open spec fn well_formed(&self) -> bool {
        self.has_table() && self.table().dom().finite()
    }

    /// The ledger accepts `post`: it is well formed, the correlation id is not
    /// recorded yet, and it is short enough for SQLite.
    pub open spec fn accepts_new(&self, post: PaymentPost) -> bool {
        &&& self.well_formed()
        &&& !self.table().dom().contains(post.correlation_id@)
        &&& post.correlation_id@.len() < 100_000_000
    }

    /// Opens an empty ledger.
    pub fn new() -> (db: Result<PaymentsDb, DbError>)
        ensures
            db is Ok,
            db is Ok ==> db->Ok_0.table().dom() == Set::<Seq<char>>::empty(),
            db is Ok ==> db->Ok_0.well_formed(),
            db is Err ==> db->Err_0 == DbError::Storage,
    {
        let mut conn = match open_connection() {
            Ok(conn) => conn,
            Err(_) => {
                return Err(DbError::Storage);
            },
        };
        match create_payments_table(&mut conn) {
            Ok(_) => Ok(PaymentsDb { conn }),
            Err(_) => Err(DbError::Storage),
        }
    }

    /// Records a payment as accepted by the processor `kind`. A payment whose
    /// correlation id is already recorded is refused, and a refused payment
    /// leaves the ledger as it was; a new one is recorded.
    pub fn insert_payment(&mut self, post: &PaymentPost, kind: PaymentKind) -> (r: Result<(), DbError>)
        ensures
            recorded(old(self).table(), final(self).table(), *post, kind, r),
            old(self).accepts_new(*post) ==> r is Ok,
            old(self).well_formed() ==> final(self).well_formed(),
    {
        proof {
            reveal_strlit("default");
            reveal_strlit("fallback");
        }
        let name = kind.to_string();
        let cents = post.cents();
        match insert_payment_row(&mut self.conn, post.correlation_id.as_str(), cents, post.requested_at_ts, name.as_str()) {
            Ok(_) => Ok(()),
            Err(_) => Err(DbError::Storage),
        }
    }

    /// Reads an RFC 3339 text as milliseconds since the Unix epoch.
    pub fn parse_date(date_str: &str) -> (r: Result<i64, DbError>)
        ensures
            r is Ok <==> rfc3339_millis(date_str@) is Some,
            r is Ok ==> rfc3339_millis(date_str@) == Some(r->Ok_0),
            r is Err ==> r->Err_0 == DbError::InvalidDate,
    {
        match parse_rfc3339_millis(date_str) {
            Some(millis) => Ok(millis),
            None => Err(DbError::InvalidDate),
        }
    }

    /// The summary of the payments requested within `[from, to]`; the window
    /// starts at the Unix epoch when `from` is absent and ends now when `to` is
    /// absent. A bound that is not RFC 3339 text gives `InvalidDate`.
    pub fn get_stats(&self, from: Option<&str>, to: Option<&str>) -> (r: Result<Stats, DbError>)
        ensures
            exists|now: i64|
                #[trigger] summary_of_window(self.table(), text_of(from), text_of(to), now, r) && (self.well_formed()
                    ==> summary_owed(self.table(), text_of(from), text_of(to), now, r)),
    {
        let now = utc_now_millis();
        self.get_stats_at(from, to, now)
    }

    /// The summary of the payments requested within `[from, to]`, with the
    /// clock reading `now`: the window starts at the Unix epoch when `from` is
    /// absent and ends at `now` when `to` is absent. A bound that is not
    /// RFC 3339 text gives `InvalidDate`.
    pub fn get_stats_at(&self, from: Option<&str>, to: Option<&str>, now: i64) -> (r: Result<Stats, DbError>)
        ensures
            summary_of_window(self.table(), text_of(from), text_of(to), now, r),
            self.well_formed() ==> summary_owed(self.table(), text_of(from), text_of(to), now, r),
    {
        let start: i64 = match from {
            Some(text) => Self::parse_date(text)?,
            None => 0,
        };
        let end: i64 = match to {
            Some(text) => Self::parse_date(text)?,
            None => now,
        };
        let rows = match query_kind_totals(&self.conn, start, end) {
            Ok(rows) => rows,
            Err(_) => {
                return Err(DbError::Storage);
            },
        };
        let stats = stats_from_rows(&rows);
        assert(window_start(text_of(from)) == Some(start));
        assert(window_end(text_of(to), now) == Some(end));
        assert(kind_rows_match(
            self.table(),
            window_start(text_of(from))->Some_0 as int,
            window_end(text_of(to), now)->Some_0 as int,
            rows@,
        ));
        proof {
            if self.well_formed() && window_abs_total(self.table(), start as int, end as int) <= i64::MAX {
                lemma_stats_exact_when_all_read(self.table(), start as int, end as int, rows@);
            }
        }
        Ok(stats)
    }
}

} // verus!
