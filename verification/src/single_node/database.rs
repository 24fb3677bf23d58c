//! The single-process service's ledger: payments recorded with their request
//! time, listed back over a time window.
use vstd::prelude::*;
use crate::database::DbError;
use crate::dates::{format_millis_rfc3339, millis_rfc3339, parse_rfc3339_millis, rfc3339_millis};
use crate::ledger::{RangeRow, Table, all_read, lemma_insert_extends_window, range_row_correct, range_rows_match, window};
use crate::sql_store::{
    create_payments_table, has_payments_table, insert_payment_row, open_connection, payments_table,
    query_payments_in_range,
};

verus! {

/// A player record (name, kills, deaths); nothing in the ledger uses it.
pub struct DBPlayer {
    name: String,
    kills: usize,
    deaths: usize,
}

/// A payment as recorded and listed: correlation id, amount in cents, and the
/// request time as RFC 3339 text.
#[derive(Debug, Clone, PartialEq)]
pub struct PaymentPost {
    pub correlation_id: String,
    pub amount_cents: i64,
    /// For example `2025-07-15T12:34:56.000Z`.
    pub requested_at: String,
}

/// `p` is the listing of a stored payment of the window: its id is in the
/// window, its amount is the stored one, its time is the stored instant
/// written as RFC 3339.
pub open spec fn listed_correctly(t: Table, from: int, to: int, p: PaymentPost) -> bool {
    &&& window(t, from, to).contains(p.correlation_id@)
    &&& t[p.correlation_id@].0 == p.amount_cents
    &&& millis_rfc3339(t[p.correlation_id@].1) == Some(p.requested_at@)
}

/// `posts` lists the payments of the window `[from, to]`, each once, in some order.
pub open spec fn window_listing(t: Table, from: int, to: int, posts: Seq<PaymentPost>) -> bool {
    &&& forall|i: int| 0 <= i < posts.len() ==> listed_correctly(t, from, to, #[trigger] posts[i])
    &&& forall|i: int, j: int|
        0 <= i < j < posts.len() ==> (#[trigger] posts[i]).correlation_id@ != (#[trigger] posts[j]).correlation_id@
    &&& forall|u: Seq<char>|
        #[trigger] window(t, from, to).contains(u) ==> exists|i: int|
            0 <= i < posts.len() && (#[trigger] posts[i]).correlation_id@ == u
}

/// Some row of the window query failed to be read.
pub open spec fn some_row_failed(rows: Seq<Option<RangeRow>>) -> bool {
    exists|i: int| 0 <= i < rows.len() && (#[trigger] rows[i]) is None
}

/// Some row read holds an instant that cannot be written as RFC 3339.
pub open spec fn some_stamp_unwritable(rows: Seq<Option<RangeRow>>) -> bool {
    exists|i: int|
        0 <= i < rows.len() && (#[trigger] rows[i]) is Some && millis_rfc3339(rows[i]->Some_0.requested_at) is None
}

/// `p` lists the row `r`: same correlation id and amount, and the row's
/// instant written as RFC 3339.
pub open spec fn lists_row(p: PaymentPost, r: RangeRow) -> bool {
    &&& p.correlation_id@ == r.uuid@
    &&& p.amount_cents == r.amount
    &&& millis_rfc3339(r.requested_at) == Some(p.requested_at@)
}

/// What listing the rows of the window query gives: `Storage` exactly when a
/// row failed to be read; otherwise `TimestampOutOfRange` exactly when an
/// instant cannot be written; otherwise the rows listed one for one, in order.
pub open spec fn listing_outcome(rows: Seq<Option<RangeRow>>, r: Result<Vec<PaymentPost>, DbError>) -> bool {
    &&& (r is Err && r->Err_0 == DbError::Storage) <==> some_row_failed(rows)
    &&& (r is Err && r->Err_0 == DbError::TimestampOutOfRange) <==> (!some_row_failed(rows)
        && some_stamp_unwritable(rows))
    &&& r is Err ==> r->Err_0 == DbError::Storage || r->Err_0 == DbError::TimestampOutOfRange
    &&& r is Ok ==> r->Ok_0@.len() == rows.len() && forall|i: int|
        0 <= i < rows.len() ==> lists_row(#[trigger] r->Ok_0@[i], rows[i]->Some_0)
}

/// Lists the rows of the window query: fails with `Storage` when a row failed
/// to be read, then with `TimestampOutOfRange` when an instant cannot be
/// written as RFC 3339, and otherwise gives each row as a payment, in order.
pub fn listing_from_rows(rows: &Vec<Option<RangeRow>>) -> (r: Result<Vec<PaymentPost>, DbError>)
    ensures
        listing_outcome(rows@, r),
{
    let mut i: usize = 0;
    while i < rows.len()
        invariant
            i <= rows.len(),
            forall|k: int| 0 <= k < i ==> (#[trigger] rows@[k]) is Some,
        decreases rows.len() - i,
    {
        match &rows[i] {
            None => {
                return Err(DbError::Storage);
            },
            Some(_) => {},
        }
        i = i + 1;
    }
    let mut payments: Vec<PaymentPost> = Vec::new();
    let mut j: usize = 0;
    while j < rows.len()
        invariant
            j <= rows.len(),
            payments.len() == j,
            forall|k: int| 0 <= k < rows.len() ==> (#[trigger] rows@[k]) is Some,
            forall|k: int| 0 <= k < j ==> lists_row(#[trigger] payments@[k], rows@[k]->Some_0),
            forall|k: int| 0 <= k < j ==> millis_rfc3339((#[trigger] rows@[k])->Some_0.requested_at) is Some,
        decreases rows.len() - j,
    {
        let row = match &rows[j] {
            Some(row) => row,
            None => {
                return Err(DbError::Storage);
            },
        };
        match format_millis_rfc3339(row.requested_at) {
            None => {
                assert(rows@[j as int] is Some);
                return Err(DbError::TimestampOutOfRange);
            },
            Some(text) => {
                payments.push(
                    PaymentPost {
                        correlation_id: row.uuid.clone(),
                        amount_cents: row.amount,
                        requested_at: text,
                    },
                );
            },
        }
        j = j + 1;
    }
    Ok(payments)
}

/// Listing a read of the window query in which every row came back lists
/// exactly the payments of the window, each once; an instant that cannot be
/// written belongs to a payment of the window.
pub proof fn lemma_listing_is_window(
    t: Table,
    from: int,
    to: int,
    rows: Seq<Option<RangeRow>>,
    r: Result<Vec<PaymentPost>, DbError>,
)
    requires
        range_rows_match(t, from, to, rows),
        listing_outcome(rows, r),
    ensures
        r is Ok ==> window_listing(t, from, to, r->Ok_0@),
        r is Err && r->Err_0 == DbError::TimestampOutOfRange ==> exists|u: Seq<char>|
            #[trigger] window(t, from, to).contains(u) && millis_rfc3339(t[u].1) is None,
{
    if r is Err && r->Err_0 == DbError::TimestampOutOfRange {
        let i = choose|i: int|
            0 <= i < rows.len() && (#[trigger] rows[i]) is Some && millis_rfc3339(rows[i]->Some_0.requested_at) is None;
        assert(range_row_correct(t, from, to, rows[i]->Some_0));
        assert(window(t, from, to).contains(rows[i]->Some_0.uuid@));
    }
    if r is Ok {
        let posts = r->Ok_0@;
        assert forall|i: int| 0 <= i < rows.len() implies (#[trigger] rows[i]) is Some by {
            if rows[i] is None {
                assert(some_row_failed(rows));
            }
        }
        assert(all_read(rows));
        assert forall|i: int| 0 <= i < posts.len() implies listed_correctly(t, from, to, #[trigger] posts[i]) by {
            assert(lists_row(posts[i], rows[i]->Some_0));
            assert(range_row_correct(t, from, to, rows[i]->Some_0));
        }
        assert forall|a: int, b: int| 0 <= a < b < posts.len() implies (#[trigger] posts[a]).correlation_id@
            != (#[trigger] posts[b]).correlation_id@ by {
            assert(lists_row(posts[a], rows[a]->Some_0));
            assert(lists_row(posts[b], rows[b]->Some_0));
            assert(rows[a] is Some && rows[b] is Some);
        }
        assert forall|u: Seq<char>| #[trigger] window(t, from, to).contains(u) implies exists|k: int|
            0 <= k < posts.len() && (#[trigger] posts[k]).correlation_id@ == u by {
            let k = choose|k: int| 0 <= k < rows.len() && (#[trigger] rows[k]) is Some && rows[k]->Some_0.uuid@ == u;
            assert(lists_row(posts[k], rows[k]->Some_0));
        }
    }
}

/// A payment that the ledger accepted, requested within `[from, to]`, is
/// listed by the window query of `[from, to]`, with its amount and its request
/// time written as RFC 3339 text in UTC.
pub proof fn lemma_recorded_payment_listed(
    before: Table,
    after: Table,
    post: PaymentPost,
    kind: Seq<char>,
    from: int,
    to: int,
    posts: Seq<PaymentPost>,
)
    requires
        !before.dom().contains(post.correlation_id@),
        rfc3339_millis(post.requested_at@) is Some,
        after == before.insert(
            post.correlation_id@,
            (post.amount_cents, rfc3339_millis(post.requested_at@)->Some_0, kind),
        ),
        from <= rfc3339_millis(post.requested_at@)->Some_0 <= to,
        window_listing(after, from, to, posts),
    ensures
        exists|i: int|
            0 <= i < posts.len() && (#[trigger] posts[i]).correlation_id@ == post.correlation_id@
                && posts[i].amount_cents == post.amount_cents && millis_rfc3339(
                rfc3339_millis(post.requested_at@)->Some_0,
            ) == Some(posts[i].requested_at@),
{
    let row = (post.amount_cents, rfc3339_millis(post.requested_at@)->Some_0, kind);
    lemma_insert_extends_window(before, post.correlation_id@, row, from, to);
    assert(window(after, from, to).contains(post.correlation_id@));
    let i = choose|i: int| 0 <= i < posts.len() && (#[trigger] posts[i]).correlation_id@ == post.correlation_id@;
    assert(listed_correctly(after, from, to, posts[i]));
}

/// The payments ledger, kept in an in-memory SQLite database.
pub struct PaymentsDb {
    conn: rusqlite::Connection,
}

impl PaymentsDb {
    /// The stored payments.
    pub closed spec fn table(&self) -> Table {
        payments_table(self.conn)
    }

    /// The ledger's table exists and holds finitely many payments.
    pub open spec fn well_formed(&self) -> bool {
        self.has_table() && self.table().dom().finite()
    }

    /// The database holds the `payments` table.
    pub closed spec fn has_table(&self) -> bool {
        has_payments_table(self.conn)
    }

    /// Opens an empty ledger.
    pub fn new() -> (db: Result<PaymentsDb, DbError>)
        ensures
            db is Ok,
            db is Ok ==> db->Ok_0.table().dom() == Set::<Seq<char>>::empty(),
            db is Ok ==> db->Ok_0.well_formed(),
            db is Err ==> db->Err_0 == DbError::Storage,
    {
        let mut conn = match open_connection() {
            Ok(conn) => conn,
            Err(_) => {
                return Err(DbError::Storage);
            },
        };
        match create_payments_table(&mut conn) {
            Ok(_) => Ok(PaymentsDb { conn }),
            Err(_) => Err(DbError::Storage),
        }
    }

    /// Records a payment under the kind `kind`, at the instant its
    /// `requested_at` text names. Text that is not RFC 3339 gives
    /// `InvalidDate`; a correlation id already recorded is refused; a refused
    /// payment leaves the ledger as it was.
    pub fn insert_payment(&mut self, post: &PaymentPost, kind: &str) -> (r: Result<(), DbError>)
        ensures
            (r is Err && r->Err_0 == DbError::InvalidDate) <==> rfc3339_millis(post.requested_at@) is None,
            rfc3339_millis(post.requested_at@) is Some && old(self).table().dom().contains(post.correlation_id@)
                ==> r is Err && r->Err_0 == DbError::Storage,
            r is Ok ==> final(self).table() == old(self).table().insert(
                post.correlation_id@,
                (post.amount_cents, rfc3339_millis(post.requested_at@)->Some_0, kind@),
            ),
            r is Err ==> final(self).table() == old(self).table(),
            r is Err ==> r->Err_0 == DbError::InvalidDate || r->Err_0 == DbError::Storage,
            old(self).well_formed() && rfc3339_millis(post.requested_at@) is Some && !old(self).table().dom().contains(
                post.correlation_id@,
            ) && post.correlation_id@.len() + kind@.len() < 200_000_000 ==> r is Ok,
            old(self).well_formed() ==> final(self).well_formed(),
    {
        let requested_at = match parse_rfc3339_millis(post.requested_at.as_str()) {
            Some(millis) => millis,
            None => {
                return Err(DbError::InvalidDate);
            },
        };
        match insert_payment_row(&mut self.conn, post.correlation_id.as_str(), post.amount_cents, requested_at, kind) {
            Ok(_) => Ok(()),
            Err(_) => Err(DbError::Storage),
        }
    }

    /// The payments requested within `[from, to]` (RFC 3339 bounds, both
    /// included), each with its request time written back as RFC 3339 text in
    /// UTC. A bound that is not RFC 3339 text gives `InvalidDate`; otherwise
    /// the result is a failure of the query (`Storage`) or the listing of the
    /// rows it returned.
    pub fn get_range(&self, from: &str, to: &str) -> (r: Result<Vec<PaymentPost>, DbError>)
        ensures
            (r is Err && r->Err_0 == DbError::InvalidDate) <==> (rfc3339_millis(from@) is None
                || rfc3339_millis(to@) is None),
            rfc3339_millis(from@) is Some && rfc3339_millis(to@) is Some ==> (r is Err && r->Err_0
                == DbError::Storage) || exists|rows: Seq<Option<RangeRow>>|
                #[trigger] range_rows_match(
                    self.table(),
                    rfc3339_millis(from@)->Some_0 as int,
                    rfc3339_millis(to@)->Some_0 as int,
                    rows,
                ) && listing_outcome(rows, r),
            r is Err ==> r->Err_0 == DbError::InvalidDate || r->Err_0 == DbError::Storage
                || r->Err_0 == DbError::TimestampOutOfRange,
            r is Err && r->Err_0 == DbError::TimestampOutOfRange ==> exists|u: Seq<char>|
                #[trigger] window(
                    self.table(),
                    rfc3339_millis(from@)->Some_0 as int,
                    rfc3339_millis(to@)->Some_0 as int,
                ).contains(u) && millis_rfc3339(self.table()[u].1) is None,
            r is Ok ==> window_listing(
                self.table(),
                rfc3339_millis(from@)->Some_0 as int,
                rfc3339_millis(to@)->Some_0 as int,
                r->Ok_0@,
            ),
            self.well_formed() && rfc3339_millis(from@) is Some && rfc3339_millis(to@) is Some ==> r is Ok || (r
                is Err && r->Err_0 == DbError::TimestampOutOfRange),
            self.well_formed() && rfc3339_millis(from@) is Some && rfc3339_millis(to@) is Some && (forall|u: Seq<char>|
                #[trigger] window(
                    self.table(),
                    rfc3339_millis(from@)->Some_0 as int,
                    rfc3339_millis(to@)->Some_0 as int,
                ).contains(u) ==> millis_rfc3339(self.table()[u].1) is Some) ==> r is Ok,
    {
        let start = match parse_rfc3339_millis(from) {
            Some(millis) => millis,
            None => {
                return Err(DbError::InvalidDate);
            },
        };
        let end = match parse_rfc3339_millis(to) {
            Some(millis) => millis,
            None => {
                return Err(DbError::InvalidDate);
            },
        };
        let rows = match query_payments_in_range(&self.conn, start, end) {
            Ok(rows) => rows,
            Err(_) => {
                return Err(DbError::Storage);
            },
        };
        let listed = listing_from_rows(&rows);
        proof {
            lemma_listing_is_window(self.table(), start as int, end as int, rows@, listed);
            if self.well_formed() {
                assert(all_read(rows@));
                assert(!some_row_failed(rows@));
            }
            assert(range_rows_match(
                self.table(),
                rfc3339_millis(from@)->Some_0 as int,
                rfc3339_millis(to@)->Some_0 as int,
                rows@,
            ));
        }
        listed
    }
}

} // verus!
