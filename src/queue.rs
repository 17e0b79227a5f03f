use vstd::prelude::*;
use std::collections::VecDeque;
use crate::record::PersistedReminder;

verus! {

/// Whether the reminders are in non-decreasing order of due time.
pub open spec fn sorted_by_due(s: Seq<PersistedReminder>) -> bool {
    forall|i: int, j: int| 0 <= i < j < s.len() ==> s[i].due_at() <= s[j].due_at()
}

/// `r` placed into the ordered `q`: after every reminder due no later than
/// it, before every reminder due later. Among equal due times the earlier
/// arrival thus stays first.
pub open spec fn insert_in_order(q: Seq<PersistedReminder>, r: PersistedReminder) -> Seq<
    PersistedReminder,
>
    decreases q.len(),
{
    if q.len() == 0 {
        seq![r]
    } else if r.due_at() < q[0].due_at() {
        seq![r] + q
    } else {
        seq![q[0]] + insert_in_order(q.drop_first(), r)
    }
}

/// The queue that inserting the reminders of `s` one by one, in order, into
/// an empty queue gives.
pub open spec fn queue_of(s: Seq<PersistedReminder>) -> Seq<PersistedReminder>
    decreases s.len(),
{
    if s.len() == 0 {
        Seq::empty()
    } else {
        insert_in_order(queue_of(s.drop_last()), s.last())
    }
}

/// Placing `r` at `k` in the ordered `q`, where everything before `k` is due
/// no later than `r` and everything from `k` on is due later, is exactly
/// `insert_in_order`.
proof fn lemma_insert_at_split(q: Seq<PersistedReminder>, r: PersistedReminder, k: int)
    requires
        0 <= k <= q.len(),
        forall|i: int| 0 <= i < k ==> #[trigger] q[i].due_at() <= r.due_at(),
        forall|i: int| k <= i < q.len() ==> #[trigger] q[i].due_at() > r.due_at(),
    ensures
        insert_in_order(q, r) == q.insert(k, r),
    decreases q.len(),
{
    if q.len() == 0 {
        assert(q.insert(k, r) =~= seq![r]);
    } else if k == 0 {
        assert(q.insert(k, r) =~= seq![r] + q);
    } else {
        let t = q.drop_first();
        assert forall|i: int| 0 <= i < k - 1 implies #[trigger] t[i].due_at() <= r.due_at() by {
            assert(t[i] == q[i + 1]);
        }
        assert forall|i: int| k - 1 <= i < t.len() implies #[trigger] t[i].due_at()
            > r.due_at() by {
            assert(t[i] == q[i + 1]);
        }
        lemma_insert_at_split(t, r, k - 1);
        assert(q.insert(k, r) =~= seq![q[0]] + t.insert(k - 1, r));
    }
}

/// Inserting in order adds `r` and keeps the others, and keeps the order.
pub proof fn lemma_insert_in_order(q: Seq<PersistedReminder>, r: PersistedReminder)
    requires
        sorted_by_due(q),
    ensures
        sorted_by_due(insert_in_order(q, r)),
        insert_in_order(q, r).to_multiset() == q.to_multiset().insert(r),
        insert_in_order(q, r).len() == q.len() + 1,
    decreases q.len(),
{
    broadcast use vstd::seq_lib::group_to_multiset_ensures;

    let s = insert_in_order(q, r);
    if q.len() == 0 {
        assert(s =~= seq![r]);
        assert(s =~= Seq::<PersistedReminder>::empty().push(r));
    } else if r.due_at() < q[0].due_at() {
        assert(s =~= seq![r] + q);
        vstd::seq_lib::lemma_multiset_commutative(seq![r], q);
        assert(seq![r] =~= Seq::<PersistedReminder>::empty().push(r));
        assert forall|i: int, j: int| 0 <= i < j < s.len() implies s[i].due_at()
            <= s[j].due_at() by {
            if i > 0 {
                assert(s[i] == q[i - 1]);
            }
            assert(s[j] == q[j - 1]);
        }
    } else {
        let t = q.drop_first();
        assert(sorted_by_due(t)) by {
            assert forall|i: int, j: int| 0 <= i < j < t.len() implies t[i].due_at()
                <= t[j].due_at() by {
                assert(t[i] == q[i + 1]);
                assert(t[j] == q[j + 1]);
            }
        }
        lemma_insert_in_order(t, r);
        let u = insert_in_order(t, r);
        assert(s =~= seq![q[0]] + u);
        vstd::seq_lib::lemma_multiset_commutative(seq![q[0]], u);
        vstd::seq_lib::lemma_multiset_commutative(seq![q[0]], t);
        assert(q =~= seq![q[0]] + t);
        assert(seq![q[0]] =~= Seq::<PersistedReminder>::empty().push(q[0]));
        assert forall|i: int, j: int| 0 <= i < j < s.len() implies s[i].due_at()
            <= s[j].due_at() by {
            if i == 0 {
                assert(s[0] == q[0]);
                assert(s[j] == u[j - 1]);
                assert(u.to_multiset().count(u[j - 1]) > 0);
                assert(t.to_multiset().insert(r).count(u[j - 1]) > 0);
                if u[j - 1] != r {
                    assert(t.to_multiset().count(u[j - 1]) > 0);
                    let m = choose|m: int| 0 <= m < t.len() && t[m] == u[j - 1];
                    assert(t[m] == q[m + 1]);
                }
            } else {
                assert(s[i] == u[i - 1]);
                assert(s[j] == u[j - 1]);
            }
        }
    }
}

/// The due times of the reminders, in their order.
pub open spec fn due_times(s: Seq<PersistedReminder>) -> Seq<int> {
    s.map_values(|r: PersistedReminder| r.due_at())
}

/// Where `insert_in_order` places `r` in `q`.
pub closed spec fn insert_index(q: Seq<PersistedReminder>, r: PersistedReminder) -> int
    decreases q.len(),
{
    if q.len() == 0 || r.due_at() < q[0].due_at() {
        0
    } else {
        1 + insert_index(q.drop_first(), r)
    }
}

/// `insert_in_order` places `r` at one position and moves nothing else.
pub proof fn lemma_insert_index(q: Seq<PersistedReminder>, r: PersistedReminder)
    ensures
        0 <= insert_index(q, r) <= q.len(),
        insert_in_order(q, r) == q.insert(insert_index(q, r), r),
    decreases q.len(),
{
    if q.len() == 0 {
        assert(q.insert(0, r) =~= seq![r]);
    } else if r.due_at() < q[0].due_at() {
        assert(q.insert(0, r) =~= seq![r] + q);
    } else {
        let t = q.drop_first();
        lemma_insert_index(t, r);
        assert(q.insert(insert_index(q, r), r) =~= seq![q[0]] + t.insert(insert_index(t, r), r));
    }
}

/// Inserting any reminders one by one into an empty queue and then popping
/// them all gives back each of them exactly once, in non-decreasing order of
/// due time: the same reminders, and the same multiset of due times.
pub proof fn lemma_queue_of(s: Seq<PersistedReminder>)
    ensures
        sorted_by_due(queue_of(s)),
        queue_of(s).len() == s.len(),
        queue_of(s).to_multiset() == s.to_multiset(),
        due_times(queue_of(s)).to_multiset() == due_times(s).to_multiset(),
    decreases s.len(),
{
    broadcast use vstd::seq_lib::group_to_multiset_ensures;

    if s.len() == 0 {
        assert(due_times(s) =~= Seq::<int>::empty());
        assert(due_times(queue_of(s)) =~= Seq::<int>::empty());
    } else {
        let init = s.drop_last();
        let q = queue_of(init);
        lemma_queue_of(init);
        lemma_insert_in_order(q, s.last());
        lemma_insert_index(q, s.last());
        let k = insert_index(q, s.last());
        assert(s =~= init.push(s.last()));
        vstd::seq_lib::to_multiset_insert(q, k, s.last());
        assert(due_times(q.insert(k, s.last())) =~= due_times(q).insert(k, s.last().due_at()));
        vstd::seq_lib::to_multiset_insert(due_times(q), k, s.last().due_at());
        assert(due_times(s) =~= due_times(init).push(s.last().due_at()));
    }
}

/// Whether no two of the reminders share a storage key.
pub open spec fn keys_distinct(p: Seq<PersistedReminder>) -> bool {
    forall|i: int, j: int| 0 <= i < j < p.len() ==> p[i].key() != p[j].key()
}

/// Whether one of the reminders has the storage key `key`.
pub open spec fn holds_key(p: Seq<PersistedReminder>, key: i64) -> bool {
    exists|i: int| 0 <= i < p.len() && #[trigger] p[i].key() == key
}

/// An earliest-first queue of stored reminders. Reminders due at the same
/// instant leave in the order in which they came.
pub struct PendingQueue {
    items: VecDeque<PersistedReminder>,
}

impl View for PendingQueue {
    type V = Seq<PersistedReminder>;

    /// The reminders in the order in which they will leave.
    closed spec fn view(&self) -> Seq<PersistedReminder> {
        self.items@
    }
}

impl PendingQueue {
    /// The queue is ordered by due time.
    pub open spec fn wf(&self) -> bool {
        sorted_by_due(self@)
    }

    pub fn new() -> (r: Self)
        ensures
            r.wf(),
            r@ == Seq::<PersistedReminder>::empty(),
    {
        PendingQueue { items: VecDeque::new() }
    }

    pub fn len(&self) -> (r: usize)
        ensures
            r == self@.len(),
    {
        self.items.len()
    }

    pub fn is_empty(&self) -> (r: bool)
        ensures
            r == (self@.len() == 0),
    {
        self.items.len() == 0
    }

    /// Whether a pending reminder has the storage key `key`.
    pub fn contains_key(&self, key: i64) -> (r: bool)
        ensures
            r == holds_key(self@, key),
    {
        let n = self.items.len();
        let mut i: usize = 0;
        while i < n
            invariant
                n == self@.len(),
                i <= n,
                forall|j: int| 0 <= j < i ==> #[trigger] self@[j].key() != key,
            decreases n - i,
        {
            if self.items[i].pk() == key {
                return true;
            }
            i = i + 1;
        }
        false
    }

    /// Whether no two pending reminders share a storage key.
    pub fn has_distinct_keys(&self) -> (r: bool)
        ensures
            r == keys_distinct(self@),
    {
        let n = self.items.len();
        let mut j: usize = 0;
        while j < n
            invariant
                n == self@.len(),
                j <= n,
                forall|a: int, b: int| 0 <= a < b < j ==> self@[a].key() != self@[b].key(),
            decreases n - j,
        {
            let key = self.items[j].pk();
            let mut i: usize = 0;
            while i < j
                invariant
                    n == self@.len(),
                    i <= j < n,
                    key == self@[j as int].key(),
                    forall|a: int| 0 <= a < i ==> #[trigger] self@[a].key() != key,
                decreases j - i,
            {
                if self.items[i].pk() == key {
                    return false;
                }
                i = i + 1;
            }
            j = j + 1;
        }
        true
    }

    /// The reminder due first, left in place.
    pub fn peek_min(&self) -> (r: Option<&PersistedReminder>)
        ensures
            r == if self@.len() == 0 {
                None
            } else {
                Some(&self@[0])
            },
    {
        if self.items.len() == 0 {
            None
        } else {
            Some(&self.items[0])
        }
    }

    /// Removes and returns the reminder due first; `None` when empty.
    pub fn pop_min(&mut self) -> (r: Option<PersistedReminder>)
        requires
            old(self).wf(),
        ensures
            final(self).wf(),
            r == if old(self)@.len() == 0 {
                None
            } else {
                Some(old(self)@[0])
            },
            final(self)@ == if old(self)@.len() == 0 {
                old(self)@
            } else {
                old(self)@.drop_first()
            },
    {
        let r = self.items.pop_front();
        proof {
            if old(self)@.len() > 0 {
                assert(self@ =~= old(self)@.drop_first());
                assert forall|i: int, j: int| 0 <= i < j < self@.len() implies self@[i].due_at()
                    <= self@[j].due_at() by {
                    assert(self@[i] == old(self)@[i + 1]);
                    assert(self@[j] == old(self)@[j + 1]);
                }
            }
        }
        r
    }

    /// The queue of the given reminders, as inserting them one by one gives.
    pub fn from_records(records: Vec<PersistedReminder>) -> (r: Self)
        ensures
            r.wf(),
            r@ == queue_of(records@),
    {
        let n = records.len();
        let ghost all = records@;
        let mut q = PendingQueue::new();
        for rec in it: records.into_iter()
            invariant
                it.seq() == all,
                all.len() == n,
                q.wf(),
                q@ == queue_of(all.take(it.index() as int)),
        {
            proof {
                let i = it.index() as int;
                lemma_queue_of(all.take(i));
                assert(all.take(i + 1).drop_last() =~= all.take(i));
                assert(i < all.len());
            }
            q.insert(rec);
        }
        proof {
            assert(all.take(all.len() as int) =~= all);
        }
        q
    }

    /// Adds a reminder after every one due no later than it.
    pub fn insert(&mut self, record: PersistedReminder)
        requires
            old(self).wf(),
            old(self)@.len() < usize::MAX,
        ensures
            final(self).wf(),
            final(self)@ == insert_in_order(old(self)@, record),
    {
        let n = self.items.len();
        let mut lo: usize = 0;
        let mut hi: usize = n;
        while lo < hi
            invariant
                0 <= lo <= hi <= n,
                n == self@.len(),
                self.wf(),
                forall|i: int| 0 <= i < lo ==> #[trigger] self@[i].due_at() <= record.due_at(),
                forall|i: int| hi <= i < n ==> #[trigger] self@[i].due_at() > record.due_at(),
            decreases hi - lo,
        {
            let mid = lo + (hi - lo) / 2;
            if record.due_before(&self.items[mid]) {
                hi = mid;
            } else {
                lo = mid + 1;
            }
        }
        proof {
            lemma_insert_at_split(self@, record, lo as int);
            lemma_insert_in_order(self@, record);
        }
        self.items.insert(lo, record);
    }
}

} // verus!
