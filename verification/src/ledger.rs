//! The mathematical model of the `payments` table and of what the ledger's
//! queries read from it: the payments of a time window, and per kind their
//! number and the sum of their amounts.
use vstd::prelude::*;

verus! {

/// One stored payment: amount in cents, `requested_at` in milliseconds since
/// the Unix epoch, and the name of the payment's kind.
pub type StoredRow = (i64, i64, Seq<char>);

/// The `payments` table, keyed by the payment's correlation id.
pub type Table = Map<Seq<char>, StoredRow>;

/// A row of the per-kind summary query: a kind, the sum of the amounts of its
/// payments in the window, and their number.
pub struct KindTotal {
    pub kind: String,
    pub total: i64,
    pub count: i64,
}

/// A row of the window query: correlation id, amount in cents and
/// `requested_at` in milliseconds.
pub struct RangeRow {
    pub uuid: String,
    pub amount: i64,
    pub requested_at: i64,
}

/// `requested_at` lies in `[from, to]` (SQL `between`, bounds included).
pub open spec fn in_window(row: StoredRow, from: int, to: int) -> bool {
    from <= row.1 && row.1 <= to
}

/// The correlation ids of the payments requested within `[from, to]`.
pub open spec fn window(t: Table, from: int, to: int) -> Set<Seq<char>> {
    t.dom().filter(|u: Seq<char>| in_window(t[u], from, to))
}

/// The correlation ids of the payments of kind `kind` requested within `[from, to]`.
pub open spec fn kind_window(t: Table, kind: Seq<char>, from: int, to: int) -> Set<Seq<char>> {
    t.dom().filter(|u: Seq<char>| in_window(t[u], from, to) && t[u].2 == kind)
}

/// Number of payments of kind `kind` requested within `[from, to]`.
pub open spec fn kind_count(t: Table, kind: Seq<char>, from: int, to: int) -> nat {
    kind_window(t, kind, from, to).len()
}

/// Adds the amount stored under a correlation id to an accumulator.
pub open spec fn amount_adder(t: Table) -> spec_fn(int, Seq<char>) -> int {
    |acc: int, u: Seq<char>| acc + t[u].0
}

/// Adds the amount stored under a correlation id, without its sign.
pub open spec fn abs_amount_adder(t: Table) -> spec_fn(int, Seq<char>) -> int {
    |acc: int, u: Seq<char>| acc + (if t[u].0 < 0 { -t[u].0 } else { t[u].0 as int })
}

/// Sum of the amounts (cents) of all payments requested within `[from, to]`,
/// taken without sign: a bound on every partial sum of their amounts.
pub open spec fn window_abs_total(t: Table, from: int, to: int) -> int {
    window(t, from, to).fold(0int, abs_amount_adder(t))
}

/// Sum of the amounts (cents) of the payments of kind `kind` requested within `[from, to]`.
pub open spec fn kind_total(t: Table, kind: Seq<char>, from: int, to: int) -> int {
    kind_window(t, kind, from, to).fold(0int, amount_adder(t))
}

/// A summary row that SQLite's `group by kind` yields for this table and window.
pub open spec fn group_row_correct(t: Table, from: int, to: int, r: KindTotal) -> bool {
    &&& r.count > 0
    &&& r.count == kind_count(t, r.kind@, from, to)
    &&& r.total == kind_total(t, r.kind@, from, to)
}

/// Every item of the sequence was read successfully.
pub open spec fn all_read<T>(rows: Seq<Option<T>>) -> bool {
    forall|i: int| 0 <= i < rows.len() ==> (#[trigger] rows[i]) is Some
}

/// What the per-kind summary query returns: each row read is the group of its
/// kind, no kind comes twice, and when no row failed every kind that has a
/// payment in the window has its row.
pub open spec fn kind_rows_match(t: Table, from: int, to: int, rows: Seq<Option<KindTotal>>) -> bool {
    &&& forall|i: int|
        0 <= i < rows.len() && (#[trigger] rows[i]) is Some ==> group_row_correct(
            t,
            from,
            to,
            rows[i]->Some_0,
        )
    &&& forall|i: int, j: int|
        0 <= i < j < rows.len() && (#[trigger] rows[i]) is Some && (#[trigger] rows[j]) is Some
            ==> rows[i]->Some_0.kind@ != rows[j]->Some_0.kind@
    &&& all_read(rows) ==> forall|k: Seq<char>|
        #![trigger kind_count(t, k, from, to)]
        kind_count(t, k, from, to) > 0 ==> exists|i: int|
            0 <= i < rows.len() && (#[trigger] rows[i]) is Some && rows[i]->Some_0.kind@ == k
}

/// A window row that SQLite's `select ... where requested_at between` yields.
pub open spec fn range_row_correct(t: Table, from: int, to: int, r: RangeRow) -> bool {
    &&& window(t, from, to).contains(r.uuid@)
    &&& t[r.uuid@].0 == r.amount
    &&& t[r.uuid@].1 == r.requested_at
}

/// What the window query returns: each row read is a stored payment of the
/// window, no payment comes twice, and when no row failed every payment of the
/// window has its row.
pub open spec fn range_rows_match(t: Table, from: int, to: int, rows: Seq<Option<RangeRow>>) -> bool {
    &&& forall|i: int|
        0 <= i < rows.len() && (#[trigger] rows[i]) is Some ==> range_row_correct(
            t,
            from,
            to,
            rows[i]->Some_0,
        )
    &&& forall|i: int, j: int|
        0 <= i < j < rows.len() && (#[trigger] rows[i]) is Some && (#[trigger] rows[j]) is Some
            ==> rows[i]->Some_0.uuid@ != rows[j]->Some_0.uuid@
    &&& all_read(rows) ==> forall|u: Seq<char>|
        #[trigger] window(t, from, to).contains(u) ==> exists|i: int|
            0 <= i < rows.len() && (#[trigger] rows[i]) is Some && rows[i]->Some_0.uuid@ == u
}

/// Adding amounts commutes: the sum over a set does not depend on the order
/// in which its elements are taken.
proof fn lemma_amount_adder_commutative(t: Table)
    ensures
        vstd::set::fold::is_fun_commutative(amount_adder(t)),
{
}

/// Two tables that store the same amounts for the ids of `s` give `s` the same sum.
proof fn lemma_sum_agrees(s: Set<Seq<char>>, t1: Table, t2: Table)
    requires
        s.finite(),
        forall|u: Seq<char>| s.contains(u) ==> t1[u].0 == t2[u].0,
    ensures
        s.fold(0int, amount_adder(t1)) == s.fold(0int, amount_adder(t2)),
    decreases s.len(),
{
    lemma_amount_adder_commutative(t1);
    lemma_amount_adder_commutative(t2);
    if s.len() == 0 {
        s.lemma_len0_is_empty();
        vstd::set::fold::lemma_fold_empty(0int, amount_adder(t1));
        vstd::set::fold::lemma_fold_empty(0int, amount_adder(t2));
    } else {
        let a = s.choose();
        let r = s.remove(a);
        assert(r.insert(a) =~= s);
        lemma_sum_agrees(r, t1, t2);
        vstd::set::fold::lemma_fold_insert(r, 0int, amount_adder(t1), a);
        vstd::set::fold::lemma_fold_insert(r, 0int, amount_adder(t2), a);
    }
}

/// Storing a new payment under a fresh correlation id adds one to the count of
/// its kind and its amount to that kind's total, in every window that contains
/// its `requested_at`; every other count and total stays as it was.
pub proof fn lemma_insert_updates_kind_totals(
    t: Table,
    uuid: Seq<char>,
    row: StoredRow,
    kind: Seq<char>,
    from: int,
    to: int,
)
    requires
        t.dom().finite(),
        !t.dom().contains(uuid),
    ensures
        kind_count(t.insert(uuid, row), kind, from, to) == kind_count(t, kind, from, to) + (if in_window(row, from, to) && row.2 == kind { 1int } else { 0int }),
        kind_total(t.insert(uuid, row), kind, from, to) == kind_total(t, kind, from, to) + (if in_window(row, from, to) && row.2 == kind { row.0 as int } else { 0int }),
{
    broadcast use vstd::set_lib::group_set_lib_default;

    let t2 = t.insert(uuid, row);
    let w = kind_window(t, kind, from, to);
    let w2 = kind_window(t2, kind, from, to);
    assert(w.subset_of(t.dom()));
    assert(w.finite());
    assert forall|u: Seq<char>| w.contains(u) implies t2[u].0 == t[u].0 by {
        assert(u != uuid);
    }
    lemma_sum_agrees(w, t2, t);
    lemma_amount_adder_commutative(t2);
    if in_window(row, from, to) && row.2 == kind {
        assert(w2 =~= w.insert(uuid));
        vstd::set::fold::lemma_fold_insert(w, 0int, amount_adder(t2), uuid);
    } else {
        assert(w2 =~= w);
    }
}

/// A payment stored under a fresh correlation id is listed in exactly the
/// windows that contain its `requested_at`, and every payment listed before
/// is still listed.
pub proof fn lemma_insert_extends_window(t: Table, uuid: Seq<char>, row: StoredRow, from: int, to: int)
    requires
        !t.dom().contains(uuid),
    ensures
        window(t.insert(uuid, row), from, to).contains(uuid) == in_window(row, from, to),
        forall|u: Seq<char>| #[trigger] window(t, from, to).contains(u) ==> window(t.insert(uuid, row), from, to).contains(u),
{
}

/// Widening a window never loses a payment: a window inside another has at
/// most as many payments of each kind.
pub proof fn lemma_wider_window_counts_more(t: Table, kind: Seq<char>, from1: int, to1: int, from2: int, to2: int)
    requires
        t.dom().finite(),
        from2 <= from1,
        to1 <= to2,
    ensures
        kind_window(t, kind, from1, to1).subset_of(kind_window(t, kind, from2, to2)),
        kind_count(t, kind, from1, to1) <= kind_count(t, kind, from2, to2),
{
    broadcast use vstd::set_lib::group_set_lib_default;

    let w2 = kind_window(t, kind, from2, to2);
    assert(w2.subset_of(t.dom()));
    vstd::set_lib::lemma_len_subset(kind_window(t, kind, from1, to1), w2);
}

/// A kind with no payment in a window has a zero total there.
pub proof fn lemma_no_payment_zero_total(t: Table, kind: Seq<char>, from: int, to: int)
    requires
        t.dom().finite(),
        kind_count(t, kind, from, to) == 0,
    ensures
        kind_total(t, kind, from, to) == 0,
{
    broadcast use vstd::set_lib::group_set_lib_default;

    let w = kind_window(t, kind, from, to);
    assert(w.subset_of(t.dom()));
    w.lemma_len0_is_empty();
    vstd::set::fold::lemma_fold_empty(0int, amount_adder(t));
}

/// An empty table has no payment of any kind in any window.
pub proof fn lemma_empty_table_totals(t: Table, kind: Seq<char>, from: int, to: int)
    requires
        t.dom() == Set::<Seq<char>>::empty(),
    ensures
        kind_count(t, kind, from, to) == 0,
        kind_total(t, kind, from, to) == 0,
{
    assert(kind_window(t, kind, from, to) =~= Set::<Seq<char>>::empty());
    vstd::set::fold::lemma_fold_empty(0int, amount_adder(t));
}

} // verus!
