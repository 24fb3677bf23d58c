//! The SQLite connection that holds the `payments` table, and the statements
//! the ledger runs on it.
use vstd::prelude::*;
use crate::ledger::{KindTotal, RangeRow, all_read, kind_rows_match, range_rows_match, window_abs_total};

verus! {

#[verifier::external_type_specification]
#[verifier::external_body]
pub struct ExConnection(rusqlite::Connection);

#[verifier::external_type_specification]
#[verifier::external_body]
pub struct ExSqliteError(rusqlite::Error);

/// The rows of the `payments` table of a connection, keyed by `uuid` (the
/// table's primary key): amount in cents, `requested_at` in milliseconds since
/// the Unix epoch, and the kind's name. rusqlite hands each statement to
/// SQLite; what the wrappers below state of this table is the meaning SQLite
/// gives to their statements, which rusqlite's source does not itself show.
pub uninterp spec fn payments_table(conn: rusqlite::Connection) -> Map<Seq<char>, (i64, i64, Seq<char>)>;

/// The connection's database holds the `payments` table.
pub uninterp spec fn has_payments_table(conn: rusqlite::Connection) -> bool;

/// `rusqlite::Connection::open_in_memory`: opening an in-memory database
/// succeeds, and the new database has no table yet, so the `payments` table is
/// modelled as holding no row. The contract leaves aside memory exhaustion and
/// a SQLite library built without thread safety, under which the open fails.
#[verifier::external_body]
pub(crate) fn open_connection() -> (opened: Result<rusqlite::Connection, rusqlite::Error>)
    ensures
        opened is Ok,
        opened is Ok ==> payments_table(opened->Ok_0).dom() == Set::<Seq<char>>::empty(),
{
    rusqlite::Connection::open_in_memory()
}

/// `rusqlite::Connection::execute` with `create table if not exists payments
/// (uuid text primary key, amount int not null, requested_at timestamp not
/// null, kind text not null)`: the statement succeeds, the table then exists,
/// and it adds no row and removes none. The contract leaves aside memory
/// exhaustion.
#[verifier::external_body]
pub(crate) fn create_payments_table(conn: &mut rusqlite::Connection) -> (done: Result<usize, rusqlite::Error>)
    ensures
        done is Ok,
        has_payments_table(*final(conn)),
        payments_table(*final(conn)) == payments_table(*old(conn)),
{
    conn.execute(
        "create table if not exists payments (uuid text primary key, amount int not null, requested_at timestamp not null, kind text not null)",
        (),
    )
}

/// `rusqlite::Connection::execute` with `insert into payments (uuid, amount,
/// requested_at, kind) values (?1, ?2, ?3, ?4)`. SQLite refuses the row when
/// its `uuid` is already stored (primary key); a statement that fails changes
/// nothing; one that succeeds adds exactly this row. When the table exists,
/// the `uuid` is new and the two texts stay well inside SQLite's length limit
/// (one billion bytes by default; a char takes at most four bytes), the row is
/// accepted. The contract leaves aside memory exhaustion.
#[verifier::external_body]
pub(crate) fn insert_payment_row(
    conn: &mut rusqlite::Connection,
    uuid: &str,
    amount: i64,
    requested_at: i64,
    kind: &str,
) -> (inserted: Result<usize, rusqlite::Error>)
    ensures
        payments_table(*old(conn)).dom().contains(uuid@) ==> inserted is Err,
        has_payments_table(*old(conn)) && !payments_table(*old(conn)).dom().contains(uuid@) && uuid@.len()
            + kind@.len() < 200_000_000 ==> inserted is Ok,
        has_payments_table(*final(conn)) == has_payments_table(*old(conn)),
        inserted is Ok ==> payments_table(*final(conn)) == payments_table(*old(conn)).insert(uuid@, (amount, requested_at, kind@)),
        inserted is Err ==> payments_table(*final(conn)) == payments_table(*old(conn)),
{
    conn.execute(
        "insert into payments (uuid, amount, requested_at, kind) values (?1, ?2, ?3, ?4)",
        (uuid, amount, requested_at, kind),
    )
}

/// `rusqlite::Connection::prepare` and `Statement::query_map` with `select
/// kind, sum(amount), count(*) from payments where requested_at between ?1 and
/// ?2 group by kind`, each row read as `(String, i64, i64)`; a row that fails
/// to be read becomes `None`. The rows follow SQL's meaning of the statement
/// (see `kind_rows_match`); their order is not stated. When the table exists
/// the statement runs, and a row fails only when `sum` overflows an `i64`
/// (SQLite then raises "integer overflow"): no partial sum can overflow when
/// the amounts of the window, taken without sign, sum to at most `i64::MAX`,
/// and then every row is read. The contract leaves aside memory exhaustion.
#[verifier::external_body]
pub(crate) fn query_kind_totals(conn: &rusqlite::Connection, from: i64, to: i64) -> (rows: Result<Vec<Option<KindTotal>>, rusqlite::Error>)
    ensures
        has_payments_table(*conn) ==> rows is Ok,
        rows is Ok ==> kind_rows_match(payments_table(*conn), from as int, to as int, rows->Ok_0@),
        rows is Ok && window_abs_total(payments_table(*conn), from as int, to as int) <= i64::MAX ==> all_read(rows->Ok_0@),
{
    let mut stmt = conn.prepare(
        "select kind, sum(amount), count(*) from payments where requested_at between ?1 and ?2 group by kind",
    )?;
    let mapped = stmt.query_map((from, to), |row| <(String, i64, i64)>::try_from(row))?;
    Ok(mapped.map(|item| item.ok().map(|(kind, total, count)| KindTotal { kind, total, count })).collect())
}

/// `rusqlite::Connection::prepare` and `Statement::query_map` with `select
/// uuid, amount, requested_at from payments where requested_at between ?1 and
/// ?2`, each row read as `(String, i64, i64)`; a row that fails to be read
/// becomes `None`. The rows follow SQL's meaning of the statement (see
/// `range_rows_match`); their order is not stated. When the table exists the
/// statement runs and every row is read: the columns hold a text and two
/// integers, which read as `(String, i64, i64)` without failure. The contract
/// leaves aside memory exhaustion.
#[verifier::external_body]
pub(crate) fn query_payments_in_range(conn: &rusqlite::Connection, from: i64, to: i64) -> (rows: Result<Vec<Option<RangeRow>>, rusqlite::Error>)
    ensures
        has_payments_table(*conn) ==> rows is Ok,
        rows is Ok ==> range_rows_match(payments_table(*conn), from as int, to as int, rows->Ok_0@),
        rows is Ok && has_payments_table(*conn) ==> all_read(rows->Ok_0@),
{
    let mut stmt = conn.prepare(
        "select uuid, amount, requested_at from payments where requested_at between ?1 and ?2",
    )?;
    let mapped = stmt.query_map((from, to), |row| <(String, i64, i64)>::try_from(row))?;
    Ok(mapped.map(|item| item.ok().map(|(uuid, amount, requested_at)| RangeRow { uuid, amount, requested_at })).collect())
}

} // verus!
