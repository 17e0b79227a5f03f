use vstd::prelude::*;
use crate::queue::{
    holds_key, insert_in_order, insert_index, keys_distinct, lemma_insert_index, queue_of,
    lemma_queue_of, sorted_by_due, PendingQueue,
};
use crate::record::PersistedReminder;
use crate::time::Timestamp;

verus! {

/// What the delivery loop waits for before its next decision.
#[derive(Debug, Clone, Copy, PartialEq, Eq, Structural)]
pub enum Wait {
    /// Nothing is pending: wait for a new reminder only.
    UntilArrival,
    /// The first pending reminder is due after this many nanoseconds
    /// (zero when it is already due), unless a new reminder arrives first.
    Nanos(u128),
}

/// What ended the loop's wait.
#[derive(Debug)]
pub enum Event {
    /// The wait that `next_wait` asked for has elapsed.
    TimerFired,
    /// A newly stored reminder came in.
    Arrived(PersistedReminder),
}

/// The wait that the pending reminders `p` call for at `now`.
pub open spec fn wait_for(p: Seq<PersistedReminder>, now: Timestamp) -> Wait {
    if p.len() == 0 {
        Wait::UntilArrival
    } else if p[0].due_at() > now.instant() {
        Wait::Nanos((p[0].due_at() - now.instant()) as u128)
    } else {
        Wait::Nanos(0)
    }
}

/// The decisions of the delivery loop. It owns the pending reminders; the
/// loop around it waits as `next_wait` says, then hands over what happened.
pub struct Scheduler {
    queue: PendingQueue,
}

impl View for Scheduler {
    type V = Seq<PersistedReminder>;

    /// The pending reminders, earliest first.
    closed spec fn view(&self) -> Seq<PersistedReminder> {
        self.queue@
    }
}

impl Scheduler {
    /// The pending reminders are in due-time order and no two share a
    /// storage key.
    pub open spec fn wf(&self) -> bool {
        sorted_by_due(self@) && keys_distinct(self@)
    }

    /// Starts from the reminders that were recovered from storage; `None`
    /// when two of them share a storage key.
    pub fn new(queue: PendingQueue) -> (r: Option<Self>)
        requires
            queue.wf(),
        ensures
            match r {
                Some(s) => s.wf() && s@ == queue@,
                None => !keys_distinct(queue@),
            },
    {
        if queue.has_distinct_keys() {
            Some(Scheduler { queue })
        } else {
            None
        }
    }

    /// Number of pending reminders.
    pub fn len(&self) -> (r: usize)
        ensures
            r == self@.len(),
    {
        self.queue.len()
    }

    /// How long to wait at `now`: until the first pending reminder is due,
    /// or, with nothing pending, until a new one arrives.
    pub fn next_wait(&self, now: &Timestamp) -> (r: Wait)
        requires
            self.wf(),
        ensures
            r == wait_for(self@, *now),
    {
        match self.queue.peek_min() {
            None => Wait::UntilArrival,
            Some(first) => Wait::Nanos(first.get_sleep_time_until_reminder_should_trigger(now)),
        }
    }

    /// Decides on `event` at `now`. When the timer fired and the first
    /// pending reminder is due, it leaves the queue for good and is returned
    /// for delivery; it is never handed out early, and no pending reminder
    /// holds its storage key afterwards. A new arrival joins the queue in
    /// due-time order, so the next wait is for the true first reminder; one
    /// whose storage key is already pending is dropped.
    pub fn handle(&mut self, event: Event, now: &Timestamp) -> (r: Option<PersistedReminder>)
        requires
            old(self).wf(),
            event matches Event::Arrived(_) ==> old(self)@.len() < usize::MAX,
        ensures
            final(self).wf(),
            match event {
                Event::TimerFired => if old(self)@.len() > 0 && old(self)@[0].due_at()
                    <= now.instant() {
                    &&& r == Some(old(self)@[0])
                    &&& final(self)@ == old(self)@.drop_first()
                    &&& !holds_key(final(self)@, old(self)@[0].key())
                } else {
                    &&& r is None
                    &&& final(self)@ == old(self)@
                },
                Event::Arrived(rec) => {
                    &&& r is None
                    &&& final(self)@ == if holds_key(old(self)@, rec.key()) {
                        old(self)@
                    } else {
                        insert_in_order(old(self)@, rec)
                    }
                },
            },
    {
        match event {
            Event::TimerFired => {
                let due = match self.queue.peek_min() {
                    Some(first) => !now.is_before(first.remind_at()),
                    None => false,
                };
                if due {
                    proof {
                        lemma_delivered_key_gone(self@);
                    }
                    self.queue.pop_min()
                } else {
                    None
                }
            },
            Event::Arrived(rec) => {
                if !self.queue.contains_key(rec.pk()) {
                    proof {
                        lemma_arrival_keeps_keys_distinct(self@, rec);
                    }
                    self.queue.insert(rec);
                }
                None
            },
        }
    }
}

/// A reminder that arrives while the loop waits for a later one is waited
/// for next: the wait becomes the one for the newcomer's own due time.
pub proof fn lemma_earlier_arrival_waited_for(
    p: Seq<PersistedReminder>,
    rec: PersistedReminder,
    now: Timestamp,
)
    requires
        p.len() > 0,
        rec.due_at() < p[0].due_at(),
    ensures
        insert_in_order(p, rec)[0] == rec,
        wait_for(insert_in_order(p, rec), now) == wait_for(seq![rec], now),
{
}

/// Whatever arrives, the first pending reminder afterwards is the earlier of
/// the newcomer and the one that was first, the one already there winning a
/// tie.
pub proof fn lemma_arrival_head(p: Seq<PersistedReminder>, rec: PersistedReminder)
    ensures
        insert_in_order(p, rec)[0] == if p.len() == 0 || rec.due_at() < p[0].due_at() {
            rec
        } else {
            p[0]
        },
{
}

/// A delivered reminder is gone from the pending ones: when storage keys are
/// distinct, no pending reminder left holds its key, so it cannot be
/// delivered, nor its row deleted, a second time.
pub proof fn lemma_delivered_key_gone(p: Seq<PersistedReminder>)
    requires
        p.len() > 0,
        keys_distinct(p),
    ensures
        forall|i: int| 0 <= i < p.len() - 1 ==> #[trigger] p.drop_first()[i].key() != p[0].key(),
        !holds_key(p.drop_first(), p[0].key()),
        keys_distinct(p.drop_first()),
{
    assert forall|i: int| 0 <= i < p.len() - 1 implies #[trigger] p.drop_first()[i].key()
        != p[0].key() by {
        assert(p.drop_first()[i] == p[i + 1]);
    }
    assert forall|i: int, j: int| 0 <= i < j < p.len() - 1 implies p.drop_first()[i].key()
        != p.drop_first()[j].key() by {
        assert(p.drop_first()[i] == p[i + 1]);
        assert(p.drop_first()[j] == p[j + 1]);
    }
}

/// A newcomer whose storage key no pending reminder holds keeps the keys
/// distinct. With `lemma_delivered_key_gone`, no key is ever pending twice.
pub proof fn lemma_arrival_keeps_keys_distinct(p: Seq<PersistedReminder>, rec: PersistedReminder)
    requires
        keys_distinct(p),
        !holds_key(p, rec.key()),
    ensures
        keys_distinct(insert_in_order(p, rec)),
{
    lemma_insert_index(p, rec);
    let k = insert_index(p, rec);
    assert forall|i: int| 0 <= i < p.len() implies #[trigger] p[i].key() != rec.key() by {
        if p[i].key() == rec.key() {
            assert(holds_key(p, rec.key()));
        }
    }
    let s = p.insert(k, rec);
    assert forall|i: int, j: int| 0 <= i < j < s.len() implies s[i].key() != s[j].key() by {
        if j < k {
            assert(s[i] == p[i] && s[j] == p[j]);
        } else if j == k {
            assert(s[i] == p[i] && s[j] == rec);
        } else if i < k {
            assert(s[i] == p[i] && s[j] == p[j - 1]);
        } else if i == k {
            assert(s[i] == rec && s[j] == p[j - 1]);
        } else {
            assert(s[i] == p[i - 1] && s[j] == p[j - 1]);
        }
    }
}

/// After recovery the stored reminders come out in due-time order: the one
/// at place `k` is due no later than any after it, and once the `k` before
/// it have left, the wait is for its own due time, zero when it is past due.
pub proof fn lemma_recovered_in_due_order(s: Seq<PersistedReminder>, now: Timestamp, k: int)
    requires
        0 <= k < s.len(),
    ensures
        forall|j: int| k < j < queue_of(s).len() ==> queue_of(s)[k].due_at() <= #[trigger] queue_of(
            s,
        )[j].due_at(),
        wait_for(queue_of(s).skip(k), now) == if queue_of(s)[k].due_at() > now.instant() {
            Wait::Nanos((queue_of(s)[k].due_at() - now.instant()) as u128)
        } else {
            Wait::Nanos(0)
        },
{
    lemma_queue_of(s);
}

/// With nothing pending the loop waits for an arrival only; it sets no
/// timer.
pub proof fn lemma_empty_waits(p: Seq<PersistedReminder>, now: Timestamp)
    requires
        p.len() == 0,
    ensures
        wait_for(p, now) == Wait::UntilArrival,
{
}

} // verus!
