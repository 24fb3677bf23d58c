//! The state behind the work queue shared by producers and stealing workers:
//! items are taken last-in first-out, and once the queue is closed nothing is
//! added or taken any more. Locking and waking the workers stay with the caller.
use vstd::prelude::*;
use vstd::multiset::Multiset;

verus! {

/// What a worker gets when it tries to take an item.
pub enum PopOutcome<T> {
    /// The queue is closed: the worker stops.
    Closed,
    /// The most recently added item.
    Item(T),
    /// Nothing to take yet: the worker waits to be woken.
    Empty,
}

/// The abstract queue: its items, oldest first, and whether it is closed.
pub ghost struct QueueView<T> {
    pub items: Seq<T>,
    pub closed: bool,
}

impl<T> QueueView<T> {
    /// The queue after offering `value`: added on top while open, dropped once closed.
    pub open spec fn pushed(self, value: T) -> QueueView<T> {
        if self.closed {
            self
        } else {
            QueueView { items: self.items.push(value), closed: false }
        }
    }

    /// The queue after a worker tries to take an item, and what the worker gets.
    pub open spec fn popped(self) -> (QueueView<T>, PopOutcome<T>) {
        if self.closed {
            (self, PopOutcome::Closed)
        } else if self.items.len() == 0 {
            (self, PopOutcome::Empty)
        } else {
            (QueueView { items: self.items.drop_last(), closed: false }, PopOutcome::Item(self.items.last()))
        }
    }

    /// The queue after it is closed: the items stay, nothing moves any more.
    pub open spec fn shut(self) -> QueueView<T> {
        QueueView { items: self.items, closed: true }
    }
}

/// The items of the queue and whether it has been closed.
pub struct InnerValues<T> {
    data: Vec<T>,
    is_closed: bool,
}

impl<T> View for InnerValues<T> {
    type V = QueueView<T>;

    closed spec fn view(&self) -> QueueView<T> {
        QueueView { items: self.data@, closed: self.is_closed }
    }
}

impl<T> InnerValues<T> {
    /// An open queue without items.
    pub fn new() -> (q: Self)
        ensures
            q@.items == Seq::<T>::empty(),
            !q@.closed,
    {
        InnerValues { data: Vec::new(), is_closed: false }
    }

    /// Offers an item: `Some(())` and the item on top while the queue is open,
    /// `None` once it is closed.
    pub fn push(&mut self, value: T) -> (accepted: Option<()>)
        ensures
            final(self)@ == old(self)@.pushed(value),
            accepted is Some <==> !old(self)@.closed,
    {
        if self.is_closed {
            return None;
        }
        self.data.push(value);
        Some(())
    }

    /// Takes the most recently added item, if the queue is open and holds one.
    pub fn pop(&mut self) -> (taken: PopOutcome<T>)
        ensures
            (final(self)@, taken) == old(self)@.popped(),
    {
        if self.is_closed {
            return PopOutcome::Closed;
        }
        match self.data.pop() {
            Some(item) => PopOutcome::Item(item),
            None => PopOutcome::Empty,
        }
    }

    /// Closes the queue.
    pub fn close(&mut self)
        ensures
            final(self)@ == old(self)@.shut(),
    {
        self.is_closed = true;
    }
}

/// An item offered to an open queue is the next one taken, and taking it
/// leaves the queue as it was before the offer.
pub proof fn lemma_pop_takes_last_push<T>(q: QueueView<T>, value: T)
    requires
        !q.closed,
    ensures
        q.pushed(value).popped() == (q, PopOutcome::Item(value)),
{
    assert(q.items.push(value).drop_last() =~= q.items);
}

/// Items come out in the reverse order of their offers: after offering
/// `values` to an open queue, taking `values.len()` times returns them last
/// first and leaves the queue as it was.
pub proof fn lemma_pops_reverse_pushes<T>(q: QueueView<T>, values: Seq<T>)
    requires
        !q.closed,
    ensures
        pop_n(push_all(q, values), values.len()) == (q, values.reverse()),
    decreases values.len(),
{
    if values.len() > 0 {
        let rest = values.drop_last();
        let v = values.last();
        assert(push_all(q, values) == push_all(q, rest).pushed(v));
        lemma_push_all_open(q, rest);
        lemma_pop_takes_last_push(push_all(q, rest), v);
        lemma_pops_reverse_pushes(q, rest);
        assert(values.reverse() =~= seq![v] + rest.reverse());
    } else {
        assert(values.reverse() =~= Seq::<T>::empty());
    }
}

/// The queue after offering each of `values` in turn.
pub open spec fn push_all<T>(q: QueueView<T>, values: Seq<T>) -> QueueView<T>
    decreases values.len(),
{
    if values.len() == 0 {
        q
    } else {
        push_all(q, values.drop_last()).pushed(values.last())
    }
}

/// Taking `n` times: the queue left, and the items taken, in the order taken.
pub open spec fn pop_n<T>(q: QueueView<T>, n: nat) -> (QueueView<T>, Seq<T>)
    decreases n,
{
    if n == 0 {
        (q, Seq::empty())
    } else {
        let (q1, out) = q.popped();
        let (q2, rest) = pop_n(q1, (n - 1) as nat);
        match out {
            PopOutcome::Item(v) => (q2, seq![v] + rest),
            _ => (q2, rest),
        }
    }
}

proof fn lemma_push_all_open<T>(q: QueueView<T>, values: Seq<T>)
    requires
        !q.closed,
    ensures
        !push_all(q, values).closed,
        push_all(q, values).items == q.items + values,
    decreases values.len(),
{
    if values.len() > 0 {
        lemma_push_all_open(q, values.drop_last());
        assert(q.items + values =~= (q.items + values.drop_last()).push(values.last()));
    } else {
        assert(q.items + values =~= q.items);
    }
}

/// One operation on the queue: an offer, a take, or closing it.
pub enum QueueOp<T> {
    Push(T),
    Pop,
    Close,
}

/// The items an optional value contributes to a multiset.
pub open spec fn option_items<T>(v: Option<T>) -> Multiset<T> {
    match v {
        Some(x) => Multiset::empty().insert(x),
        None => Multiset::empty(),
    }
}

/// The queue after one operation, the item it took (if any) and the item it
/// accepted (if any).
pub open spec fn apply_op<T>(q: QueueView<T>, op: QueueOp<T>) -> (QueueView<T>, Option<T>, Option<T>) {
    match op {
        QueueOp::Push(v) => (q.pushed(v), None, if q.closed { None } else { Some(v) }),
        QueueOp::Pop => match q.popped().1 {
            PopOutcome::Item(v) => (q.popped().0, Some(v), None),
            _ => (q.popped().0, None, None),
        },
        QueueOp::Close => (q.shut(), None, None),
    }
}

/// The queue after a sequence of operations, the items taken, and the items accepted.
pub open spec fn run_ops<T>(q: QueueView<T>, ops: Seq<QueueOp<T>>) -> (QueueView<T>, Multiset<T>, Multiset<T>)
    decreases ops.len(),
{
    if ops.len() == 0 {
        (q, Multiset::empty(), Multiset::empty())
    } else {
        let (q1, taken, accepted) = apply_op(q, ops[0]);
        let (q2, rest_taken, rest_accepted) = run_ops(q1, ops.drop_first());
        (q2, option_items(taken).add(rest_taken), option_items(accepted).add(rest_accepted))
    }
}

/// Nothing is lost or made up: over any sequence of operations, the items the
/// queue held at the start and those it accepted are exactly the items taken
/// and those it holds at the end (as multisets); so the items taken are
/// always among those held or offered.
pub proof fn lemma_taken_items_were_offered<T>(q: QueueView<T>, ops: Seq<QueueOp<T>>)
    ensures
        q.items.to_multiset().add(run_ops(q, ops).2) == run_ops(q, ops).0.items.to_multiset().add(run_ops(q, ops).1),
        run_ops(q, ops).1.subset_of(q.items.to_multiset().add(run_ops(q, ops).2)),
    decreases ops.len(),
{
    broadcast use vstd::seq_lib::group_to_multiset_ensures;
    broadcast use vstd::multiset::group_multiset_axioms;

    if ops.len() > 0 {
        let (q1, taken, accepted) = apply_op(q, ops[0]);
        lemma_taken_items_were_offered(q1, ops.drop_first());
        match ops[0] {
            QueueOp::Push(v) => {
                if !q.closed {
                    assert(q1.items.to_multiset() =~= q.items.to_multiset().insert(v));
                } else {
                    assert(q1 == q);
                }
            },
            QueueOp::Pop => {
                if !q.closed && q.items.len() > 0 {
                    let last = q.items.last();
                    assert(q.items.drop_last() =~= q.items.remove(q.items.len() - 1));
                    assert(q1.items.to_multiset() =~= q.items.to_multiset().remove(last));
                    assert(q.items.to_multiset().count(last) > 0) by {
                        assert(q.items.contains(last));
                    }
                } else {
                    assert(q1 == q);
                }
            },
            QueueOp::Close => {
                assert(q1.items == q.items);
            },
        }
        let (q2, rt, ra) = run_ops(q1, ops.drop_first());
        assert(q.items.to_multiset().add(option_items(accepted).add(ra)) =~= q2.items.to_multiset().add(
            option_items(taken).add(rt),
        ));
    } else {
        assert(q.items.to_multiset().add(Multiset::<T>::empty()) =~= q.items.to_multiset());
    }
    let (qf, tk, ac) = run_ops(q, ops);
    assert(tk.subset_of(qf.items.to_multiset().add(tk)));
}

/// A closed queue stays closed: offers are dropped and every take answers `Closed`.
pub proof fn lemma_closed_queue_is_inert<T>(q: QueueView<T>, value: T)
    requires
        q.closed,
    ensures
        q.pushed(value) == q,
        q.popped() == (q, PopOutcome::<T>::Closed),
        q.shut() == q,
{
}

/// An open queue without items makes a worker wait.
pub proof fn lemma_empty_open_queue_waits<T>(q: QueueView<T>)
    requires
        !q.closed,
        q.items.len() == 0,
    ensures
        q.popped() == (q, PopOutcome::<T>::Empty),
{
}

} // verus!
