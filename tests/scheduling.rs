use reminder_bot::queue::PendingQueue;
use reminder_bot::record::{PersistedReminder, Reminder};
use reminder_bot::scheduler::{Event, Scheduler, Wait};
use reminder_bot::storage::{after_delete, parse_rows, AfterDelete, StoredRow};
use reminder_bot::time::Timestamp;

const SEC: u128 = 1_000_000_000;

fn sched(q: PendingQueue) -> Scheduler {
    Scheduler::new(q).expect("storage keys are distinct")
}

fn msg() -> String {
    serde_json::to_string(&poise::serenity_prelude::Message::default()).unwrap()
}

fn stored(id: i64, at: &str) -> StoredRow {
    StoredRow { id, user_id: "1".into(), message: msg(), remind_at: at.into() }
}

fn rec(pk: i64, user: u64, secs: i64) -> PersistedReminder {
    rec_at(pk, user, Timestamp::new(secs, 0))
}

fn rec_at(pk: i64, user: u64, at: Timestamp) -> PersistedReminder {
    PersistedReminder::from_reminder(Reminder::new(user, "{}".to_string(), at), pk)
}

fn drain(q: &mut PendingQueue) -> Vec<i64> {
    let mut out = Vec::new();
    while let Some(r) = q.pop_min() {
        out.push(r.pk());
    }
    out
}

#[test]
fn earlier_reminder_pops_first() {
    let t = 1_000_000;
    let mut q = PendingQueue::new();
    q.insert(rec(1, 1, t + 3600));
    q.insert(rec(2, 1, t + 10));
    assert_eq!(q.len(), 2);
    assert_eq!(q.peek_min().unwrap().pk(), 2);
    let first = q.pop_min().unwrap();
    let second = q.pop_min().unwrap();
    assert_eq!(*first.remind_at(), Timestamp::new(t + 10, 0));
    assert_eq!(*second.remind_at(), Timestamp::new(t + 3600, 0));
    assert!(q.pop_min().is_none());
    assert!(q.is_empty());
}

#[test]
fn pops_come_in_due_order() {
    let dues = [50, 3, 99, 7, 42, 1, 64, 18, 0, 77, -5];
    let mut q = PendingQueue::new();
    for (i, d) in dues.iter().enumerate() {
        q.insert(rec(i as i64, 1, *d));
    }
    let mut popped = Vec::new();
    while let Some(r) = q.pop_min() {
        popped.push(r.remind_at().secs);
    }
    let mut sorted = dues.to_vec();
    sorted.sort();
    assert_eq!(popped, sorted);
}

#[test]
fn equal_due_times_leave_in_arrival_order() {
    let mut q = PendingQueue::new();
    q.insert(rec(1, 1, 5));
    q.insert(rec(2, 1, 5));
    q.insert(rec(3, 1, 1));
    q.insert(rec(4, 1, 5));
    assert_eq!(drain(&mut q), vec![3, 1, 2, 4]);
}

#[test]
fn sub_second_order_counts() {
    let mut q = PendingQueue::new();
    q.insert(rec_at(1, 1, Timestamp::new(10, 900)));
    q.insert(rec_at(2, 1, Timestamp::new(10, 100)));
    q.insert(rec_at(3, 1, Timestamp::new(9, 999_999_999)));
    assert_eq!(drain(&mut q), vec![3, 2, 1]);
}

#[test]
fn recovery_pops_all_stored_due_times_sorted() {
    let rows = vec![
        StoredRow { id: 1, user_id: "1".into(), message: msg(), remind_at: "2024-01-01T01:00:00Z".into() },
        StoredRow { id: 2, user_id: "1".into(), message: msg(), remind_at: "2024-01-01T00:00:05Z".into() },
        StoredRow { id: 3, user_id: "2".into(), message: msg(), remind_at: "2023-12-31T23:59:55Z".into() },
        StoredRow { id: 4, user_id: "2".into(), message: msg(), remind_at: "2024-01-01T00:00:05Z".into() },
    ];
    let mut q = PendingQueue::from_records(parse_rows(rows).unwrap());
    assert_eq!(q.len(), 4);
    let mut dues = Vec::new();
    while let Some(r) = q.pop_min() {
        dues.push(r.remind_at().secs);
    }
    let t = 1704067200;
    assert_eq!(dues, vec![t - 5, t + 5, t + 5, t + 3600]);
}

#[test]
fn no_lost_wakeups() {
    let now = Timestamp::new(1000, 0);
    let mut q = PendingQueue::new();
    q.insert(rec(1, 1, 1010));
    let mut s = sched(q);
    assert_eq!(s.next_wait(&now), Wait::Nanos(10 * SEC));

    // 100 ms later a reminder due 200 ms after that arrives.
    let later = Timestamp::new(1000, 100_000_000);
    let soon = rec_at(2, 1, Timestamp::new(1000, 300_000_000));
    assert!(s.handle(Event::Arrived(soon), &later).is_none());
    assert_eq!(s.next_wait(&later), Wait::Nanos(200_000_000));

    let fire = Timestamp::new(1000, 300_000_000);
    let delivered = s.handle(Event::TimerFired, &fire).unwrap();
    assert_eq!(delivered.pk(), 2);
    assert_eq!(s.next_wait(&fire), Wait::Nanos(9 * SEC + 700_000_000));
}

#[test]
fn empty_scheduler_waits_for_arrival_only() {
    let now = Timestamp::new(50, 0);
    let mut s = sched(PendingQueue::new());
    assert_eq!(s.next_wait(&now), Wait::UntilArrival);
    assert!(s.handle(Event::TimerFired, &now).is_none());
    assert!(s.handle(Event::TimerFired, &Timestamp::new(i64::MAX, 0)).is_none());
    assert_eq!(s.len(), 0);
    assert_eq!(s.next_wait(&now), Wait::UntilArrival);
}

#[test]
fn never_delivers_early() {
    let mut q = PendingQueue::new();
    q.insert(rec(1, 1, 100));
    let mut s = sched(q);
    assert!(s.handle(Event::TimerFired, &Timestamp::new(99, 999_999_999)).is_none());
    assert_eq!(s.len(), 1);
    assert_eq!(s.handle(Event::TimerFired, &Timestamp::new(100, 0)).unwrap().pk(), 1);
    assert_eq!(s.len(), 0);
}

#[test]
fn reminder_due_now_on_empty_loop_is_delivered() {
    let start = Timestamp::new(2000, 0);
    let mut stored: Vec<i64> = Vec::new();
    let mut s = sched(PendingQueue::new());
    assert_eq!(s.next_wait(&start), Wait::UntilArrival);

    // 50 ms later a reminder due at the loop's start is stored, then sent in.
    let t = Timestamp::new(2000, 50_000_000);
    stored.push(9);
    assert!(s.handle(Event::Arrived(rec_at(9, 4, start)), &t).is_none());
    assert_eq!(s.next_wait(&t), Wait::Nanos(0));

    let delivered = s.handle(Event::TimerFired, &t).unwrap();
    let before = stored.len();
    stored.retain(|k| *k != delivered.pk());
    assert_eq!(after_delete(Some(before - stored.len())), AfterDelete::Done);
    assert!(stored.is_empty());
    assert_eq!(s.next_wait(&t), Wait::UntilArrival);
}

#[test]
fn past_due_row_goes_first_after_boot() {
    let boot = Timestamp::new(1704067200, 0);
    let rows = vec![
        StoredRow { id: 1, user_id: "1".into(), message: msg(), remind_at: "2024-01-01T01:00:00Z".into() },
        StoredRow { id: 2, user_id: "1".into(), message: msg(), remind_at: "2023-12-31T23:59:55Z".into() },
        StoredRow { id: 3, user_id: "1".into(), message: msg(), remind_at: "2024-01-01T00:00:05Z".into() },
    ];
    let mut s = sched(PendingQueue::from_records(parse_rows(rows).unwrap()));
    assert_eq!(s.next_wait(&boot), Wait::Nanos(0));
    assert_eq!(s.handle(Event::TimerFired, &boot).unwrap().pk(), 2);
    assert_eq!(s.next_wait(&boot), Wait::Nanos(5 * SEC));
    assert!(s.handle(Event::TimerFired, &boot).is_none());
    let five = Timestamp::new(1704067205, 0);
    assert_eq!(s.handle(Event::TimerFired, &five).unwrap().pk(), 3);
    assert_eq!(s.next_wait(&five), Wait::Nanos(3595 * SEC));
}

#[test]
fn failed_delivery_still_deletes_the_row() {
    let now = Timestamp::new(10, 0);
    let mut stored: Vec<i64> = vec![1, 2];
    let mut q = PendingQueue::new();
    q.insert(rec(1, 404, 5));
    q.insert(rec(2, 5, 8));
    let mut s = sched(q);
    let deliver = |user: u64| -> Result<(), String> {
        if user == 404 {
            Err("recipient unreachable".to_string())
        } else {
            Ok(())
        }
    };

    let mut outcomes = Vec::new();
    while let Some(r) = s.handle(Event::TimerFired, &now) {
        outcomes.push(deliver(r.user_id()).is_ok());
        let before = stored.len();
        stored.retain(|k| *k != r.pk());
        assert_eq!(after_delete(Some(before - stored.len())), AfterDelete::Done);
    }
    assert_eq!(outcomes, vec![false, true]);
    assert!(stored.is_empty());
    assert_eq!(s.next_wait(&now), Wait::UntilArrival);
}

#[test]
fn delivered_reminder_is_not_pending_again() {
    let now = Timestamp::new(100, 0);
    let mut q = PendingQueue::new();
    for k in 0..5 {
        q.insert(rec(k, 1, 90 + k));
    }
    let mut s = sched(q);
    let mut seen = Vec::new();
    while let Some(r) = s.handle(Event::TimerFired, &now) {
        assert!(!seen.contains(&r.pk()));
        seen.push(r.pk());
    }
    assert_eq!(seen, vec![0, 1, 2, 3, 4]);
}

#[test]
fn past_due_row_goes_first_whatever_the_stored_order() {
    let boot = Timestamp::new(1704067200, 0);
    let orders = [[0, 1, 2], [2, 1, 0], [1, 0, 2], [1, 2, 0], [2, 0, 1], [0, 2, 1]];
    let times = ["2023-12-31T23:59:55Z", "2024-01-01T00:00:05Z", "2024-01-01T01:00:00Z"];
    for order in orders {
        let rows = order.iter().map(|&k| stored(k as i64 + 1, times[k])).collect();
        let mut s = sched(PendingQueue::from_records(parse_rows(rows).unwrap()));
        assert_eq!(s.next_wait(&boot), Wait::Nanos(0));
        assert_eq!(s.handle(Event::TimerFired, &boot).unwrap().pk(), 1);
        assert_eq!(s.next_wait(&boot), Wait::Nanos(5 * SEC));
        assert!(s.handle(Event::TimerFired, &Timestamp::new(1704067204, 999_999_999)).is_none());
        let five = Timestamp::new(1704067205, 0);
        assert_eq!(s.handle(Event::TimerFired, &five).unwrap().pk(), 2);
        assert_eq!(s.next_wait(&five), Wait::Nanos(3595 * SEC));
        let hour = Timestamp::new(1704070800, 0);
        assert_eq!(s.handle(Event::TimerFired, &hour).unwrap().pk(), 3);
        assert_eq!(s.next_wait(&hour), Wait::UntilArrival);
    }
}

#[test]
fn duplicate_storage_keys_are_refused() {
    let mut q = PendingQueue::new();
    q.insert(rec(1, 1, 10));
    q.insert(rec(1, 2, 20));
    assert!(!q.has_distinct_keys());
    assert!(Scheduler::new(q).is_none());

    let mut s = sched(PendingQueue::new());
    let now = Timestamp::new(0, 0);
    assert!(s.handle(Event::Arrived(rec(7, 1, 30)), &now).is_none());
    assert!(s.handle(Event::Arrived(rec(7, 2, 5)), &now).is_none());
    assert_eq!(s.len(), 1);
    assert_eq!(s.next_wait(&now), Wait::Nanos(30 * SEC));
}

#[test]
fn queue_finds_keys() {
    let mut q = PendingQueue::new();
    q.insert(rec(4, 1, 10));
    q.insert(rec(9, 1, 5));
    assert!(q.contains_key(4));
    assert!(q.contains_key(9));
    assert!(!q.contains_key(5));
    assert!(q.has_distinct_keys());
}
