use lib::notification::{Notification, deliver_then_complete, emit_last, emit_one};
use lib::slots::{empty_slots, slots_full, snapshot};
use lib::subscriptions::DynamicSubscriptions;

type N<T> = Notification<T, String>;

#[test]
fn emit_helpers() {
    let one: Vec<N<i32>> = emit_one(Notification::Error("x".to_string()));
    assert_eq!(one, vec![Notification::Error("x".to_string())]);
    let last: Vec<N<i32>> = emit_last(4);
    assert_eq!(last, vec![Notification::Next(4), Notification::Complete]);
}

#[test]
fn deliver_then_complete_stops_at_capacity() {
    let all: Vec<N<i32>> = deliver_then_complete(vec![1, 2, 3], None);
    assert_eq!(
        all,
        vec![Notification::Next(1), Notification::Next(2), Notification::Next(3), Notification::Complete]
    );
    let two: Vec<N<i32>> = deliver_then_complete(vec![1, 2, 3], Some(2));
    assert_eq!(two, vec![Notification::Next(1), Notification::Next(2), Notification::Complete]);
    let none: Vec<N<i32>> = deliver_then_complete(vec![1, 2, 3], Some(0));
    assert_eq!(none, vec![Notification::Complete]);
    let more: Vec<N<i32>> = deliver_then_complete(vec![1], Some(5));
    assert_eq!(more, vec![Notification::Next(1), Notification::Complete]);
}

#[test]
fn slots_fill_and_snapshot() {
    let mut slots: Vec<Option<i32>> = empty_slots(3);
    assert_eq!(slots, vec![None, None, None]);
    assert!(!slots_full(&slots));
    slots[0] = Some(1);
    slots[2] = Some(3);
    assert!(!slots_full(&slots));
    slots[1] = Some(2);
    assert!(slots_full(&slots));
    assert_eq!(snapshot(&slots), vec![1, 2, 3]);
    let none: Vec<Option<i32>> = empty_slots(0);
    assert!(slots_full(&none));
    assert_eq!(snapshot(&none), Vec::<i32>::new());
}

#[test]
fn dynamic_subscriptions_track_ids() {
    let mut subs = DynamicSubscriptions::new();
    let a = subs.reserve_id();
    let b = subs.reserve_id();
    let c = subs.reserve_id();
    assert_eq!((a, b, c), (0, 1, 2));
    assert_eq!(subs.next_id(), 3);
    assert!(!subs.contains(a));
    subs.insert(a);
    subs.insert(c);
    subs.insert(c);
    assert!(subs.contains(a) && !subs.contains(b) && subs.contains(c));
    subs.remove(a);
    assert!(!subs.contains(a));
    subs.remove(b);
    let mut cancelled = subs.unsubscribe_all();
    cancelled.sort();
    assert_eq!(cancelled, vec![c]);
    assert!(!subs.contains(c));
    assert_eq!(subs.next_id(), 3);
    assert!(subs.unsubscribe_all().is_empty());
}
