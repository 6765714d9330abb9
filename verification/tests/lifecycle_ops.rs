use std::convert::Infallible;
use std::time::{Duration, Instant};

use lib::notification::Notification;
use lib::ops::catch_error::CatchError;
use lib::ops::materialize::{Dematerialize, Materialize};
use lib::ops::on_error_resume_next::OnErrorResumeNext;
use lib::ops::repeat::{Repeat, RepeatStep};
use lib::ops::time_interval::TimeInterval;
use lib::ops::timeout::{Timeout, TimeoutError, default_timeout_error, timeout_fire};
use lib::ops::timestamp::Timestamp;

type N<T> = Notification<T, String>;
type Meta<T> = Notification<N<T>, Infallible>;

#[test]
fn test_materialize_items_and_complete() {
    let (_, obs) = Materialize { source: () }.subscribe();
    let mut out: Vec<Meta<i32>> = Vec::new();
    out.extend(obs.next::<i32, String>(1));
    out.extend(obs.next::<i32, String>(2));
    out.extend(obs.complete::<i32, String>());
    assert_eq!(
        out,
        vec![
            Notification::Next(Notification::Next(1)),
            Notification::Next(Notification::Next(2)),
            Notification::Next(Notification::Complete),
            Notification::Complete,
        ]
    );
}

#[test]
fn test_materialize_error_becomes_item() {
    let (_, obs) = Materialize { source: () }.subscribe();
    let out: Vec<Meta<i32>> = obs.error::<i32, String>("boom".to_string());
    assert_eq!(
        out,
        vec![Notification::Next(Notification::Error("boom".to_string())), Notification::Complete]
    );
}

fn dematerialize_run(items: Vec<N<i32>>) -> Vec<N<i32>> {
    let d: Dematerialize<(), i32, String> = Dematerialize::new(());
    let mut obs = d.subscribe();
    let mut out = Vec::new();
    for n in items {
        if obs.is_closed(false) {
            break;
        }
        out.extend(obs.next(n));
    }
    out.extend(obs.complete());
    out
}

#[test]
fn test_dematerialize_replays_events() {
    let out = dematerialize_run(vec![Notification::Next(1), Notification::Next(2), Notification::Complete]);
    assert_eq!(out, vec![Notification::Next(1), Notification::Next(2), Notification::Complete]);
}

#[test]
fn test_dematerialize_error_notification() {
    let out = dematerialize_run(vec![
        Notification::Next(1),
        Notification::Error("bad".to_string()),
        Notification::Next(2),
    ]);
    assert_eq!(out, vec![Notification::Next(1), Notification::Error("bad".to_string())]);
}

#[test]
fn test_round_trip() {
    let events: Vec<N<i32>> = vec![Notification::Next(1), Notification::Next(2), Notification::Complete];
    let (_, obs) = Materialize { source: () }.subscribe();
    let mut meta: Vec<Meta<i32>> = Vec::new();
    meta.extend(obs.next::<i32, String>(1));
    meta.extend(obs.next::<i32, String>(2));
    meta.extend(obs.complete::<i32, String>());
    let items: Vec<N<i32>> = meta
        .into_iter()
        .filter_map(|m| match m {
            Notification::Next(n) => Some(n),
            _ => None,
        })
        .collect();
    assert_eq!(items, events);
    assert_eq!(dematerialize_run(items), events);
}

#[test]
fn test_catch_error_switches_to_fallback() {
    let obs = CatchError { source: (), handler: () }.subscribe();
    let mut out: Vec<N<i32>> = Vec::new();
    out.extend(obs.next::<i32, String>(1));
    let handed = obs.error("boom".to_string());
    assert_eq!(handed, Some("boom".to_string()));
    // The handler subscribes the fallback [10, 20] with the same observer.
    for v in [10, 20] {
        out.push(Notification::Next(v));
    }
    out.push(Notification::Complete);
    assert_eq!(
        out,
        vec![Notification::Next(1), Notification::Next(10), Notification::Next(20), Notification::Complete]
    );
}

#[test]
fn test_catch_error_transparent_without_error() {
    let obs = CatchError { source: (), handler: () }.subscribe();
    let mut out: Vec<N<i32>> = Vec::new();
    out.extend(obs.next::<i32, String>(1));
    out.extend(obs.next::<i32, String>(2));
    out.extend(obs.complete::<i32, String>());
    assert_eq!(out, vec![Notification::Next(1), Notification::Next(2), Notification::Complete]);
}

#[test]
fn catch_error_keeps_source_handle_unless_fallback_subscribed() {
    assert!(CatchError::<(), ()>::keeps_source_subscription(false));
    assert!(!CatchError::<(), ()>::keeps_source_subscription(true));
}

#[test]
fn test_resume_after_error() {
    let obs = OnErrorResumeNext { source: (), next: () }.subscribe();
    let mut out: Vec<N<i32>> = Vec::new();
    out.extend(obs.next::<i32, String>(1));
    assert!(obs.error("boom".to_string()));
    assert_eq!(out, vec![Notification::Next(1)]);
}

#[test]
fn test_resume_after_completion() {
    let obs = OnErrorResumeNext { source: (), next: () }.subscribe();
    assert!(obs.complete());
    assert!(!OnErrorResumeNext::<(), ()>::keeps_source_subscription(true));
    assert!(OnErrorResumeNext::<(), ()>::keeps_source_subscription(false));
}

#[test]
fn test_repeat_count() {
    let repeat = Repeat { source: (), count: Some(3) };
    let mut obs = match repeat.subscribe::<i32, String>() {
        Ok(o) => o,
        Err(_) => panic!("count 3 subscribes the source"),
    };
    let mut out: Vec<i32> = Vec::new();
    let mut subscriptions = 1;
    loop {
        out.push(obs.next(1));
        out.push(obs.next(2));
        match obs.complete(false) {
            RepeatStep::Complete => break,
            RepeatStep::Resubscribe(next) => {
                let mut serial = true;
                obs = next.subscribe_impl(&mut serial).expect("still subscribed");
                subscriptions += 1;
            }
        }
    }
    assert_eq!(out, vec![1, 2, 1, 2, 1, 2]);
    assert_eq!(subscriptions, 3);
}

#[test]
fn test_repeat_zero_completes_immediately() {
    let repeat = Repeat { source: (), count: Some(0) };
    match repeat.subscribe::<i32, String>() {
        Err(out) => assert_eq!(out, vec![Notification::Complete]),
        Ok(_) => panic!("count 0 never subscribes"),
    }
}

#[test]
fn test_repeat_forever_unsubscribe_stops_resubscription() {
    let repeat = Repeat { source: (), count: None };
    let obs = repeat.subscribe::<i32, String>().ok().unwrap();
    let next = match obs.complete(false) {
        RepeatStep::Resubscribe(next) => next,
        RepeatStep::Complete => panic!("forever repeats"),
    };
    assert_eq!(next.remaining, None);
    // The downstream unsubscribed before the tick ran.
    let mut serial = false;
    assert!(next.subscribe_impl(&mut serial).is_none());
}

#[test]
fn test_repeat_error_stops() {
    let obs = Repeat { source: (), count: Some(5) }.subscribe::<i32, String>().ok().unwrap();
    assert_eq!(obs.error::<i32, String>("boom".to_string()), vec![Notification::Error("boom".to_string())]);
}

#[test]
fn repeat_stops_when_downstream_closed() {
    let obs = Repeat { source: (), count: None }.subscribe::<i32, String>().ok().unwrap();
    assert!(matches!(obs.complete(true), RepeatStep::Complete));
}

#[test]
fn test_timeout_errors_when_silent() {
    let timeout = Timeout {
        source: (),
        duration: Duration::from_millis(10),
        scheduler: (),
        error_fn: || default_timeout_error::<TimeoutError>(),
    };
    let (_, mut obs) = timeout.subscribe();
    assert!(obs.armed);
    let out: Vec<Notification<i32, TimeoutError>> = timeout_fire(&mut obs);
    assert_eq!(out, vec![Notification::Error(TimeoutError)]);
    assert!(obs.is_closed(false));
    let late: Vec<Notification<i32, TimeoutError>> = timeout_fire(&mut obs);
    assert!(late.is_empty());
}

#[test]
fn test_timeout_items_keep_it_alive() {
    let timeout = Timeout { source: (), duration: Duration::from_millis(10), scheduler: (), error_fn: || "late".to_string() };
    let (_, mut obs) = timeout.subscribe();
    let step = obs.next::<i32, String>(1);
    assert_eq!(step.out, vec![Notification::Next(1)]);
    assert!(step.cancel_timer && step.schedule_timer);
    let step = obs.next::<i32, String>(2);
    assert_eq!(step.out, vec![Notification::Next(2)]);
    let step = obs.complete::<i32, String>();
    assert_eq!(step.out, vec![Notification::Complete]);
    assert!(step.cancel_timer && !step.schedule_timer);
    assert!(!obs.armed);
}

#[test]
fn test_timeout_or_else_custom_error_and_completion_cancels() {
    let timeout = Timeout { source: (), duration: Duration::from_millis(10), scheduler: (), error_fn: || "late".to_string() };
    let (_, mut obs) = timeout.subscribe();
    let out: Vec<N<i32>> = timeout_fire(&mut obs);
    assert_eq!(out, vec![Notification::Error("late".to_string())]);

    let timeout = Timeout { source: (), duration: Duration::from_millis(10), scheduler: (), error_fn: || "late".to_string() };
    let (_, mut obs) = timeout.subscribe();
    let step = obs.complete::<i32, String>();
    assert!(step.cancel_timer);
    assert_eq!(step.out, vec![Notification::Complete]);
}

#[test]
fn test_timeout_unsubscribe_cancels_timer() {
    let timeout = Timeout { source: (), duration: Duration::from_millis(10), scheduler: (), error_fn: || "late".to_string() };
    let (_, mut obs) = timeout.subscribe();
    assert!(obs.disarm());
    assert!(!obs.disarm());
    assert!(!obs.arm());
    assert!(obs.arm());
}

#[test]
fn timeout_error_message() {
    assert_eq!(TimeoutError.message(), "observable timed out");
}

#[test]
fn test_timestamp_preserves_values_and_orders_time() {
    let (_, obs) = Timestamp { source: () }.subscribe();
    let mut stamps = Vec::new();
    let mut values = Vec::new();
    for v in [1, 2, 3] {
        for n in obs.next::<i32, String>(v) {
            if let Notification::Next(t) = n {
                values.push(t.value);
                stamps.push(t.timestamp);
            }
        }
    }
    assert_eq!(values, vec![1, 2, 3]);
    assert!(stamps.windows(2).all(|w| w[0] <= w[1]));
}

#[test]
fn test_timestamp_error_propagation() {
    let (_, obs) = Timestamp { source: () }.subscribe();
    assert_eq!(obs.error::<i32, String>("boom".to_string()).len(), 1);
}

#[test]
fn test_time_interval_preserves_values() {
    let (_, mut obs) = TimeInterval { source: () }.subscribe();
    let mut values = Vec::new();
    for v in [1, 2, 3] {
        for n in obs.next::<i32, String>(v) {
            if let Notification::Next(e) = n {
                values.push(e.value);
            }
        }
    }
    assert_eq!(values, vec![1, 2, 3]);
}

#[test]
fn test_time_interval_measures_delay() {
    let (_, mut obs) = TimeInterval { source: () }.subscribe();
    let start = obs.last;
    let later = start + Duration::from_millis(50);
    let out = obs.next_at::<i32, String>(7, later);
    match &out[..] {
        [Notification::Next(e)] => {
            assert_eq!(e.value, 7);
            assert_eq!(e.interval, Duration::from_millis(50));
        }
        _ => panic!("one item expected"),
    }
    assert_eq!(obs.last, later);
    let again = obs.next_at::<i32, String>(8, later + Duration::from_millis(5));
    match &again[..] {
        [Notification::Next(e)] => assert_eq!(e.interval, Duration::from_millis(5)),
        _ => panic!("one item expected"),
    }
    let _: Instant = obs.last;
}

#[test]
fn test_time_interval_error_propagation() {
    let (_, obs) = TimeInterval { source: () }.subscribe();
    assert_eq!(obs.error::<i32, String>("boom".to_string()).len(), 1);
}
