use lib::notification::Notification;
use lib::ops::end_with::EndWith;
use lib::ops::every::Every;
use lib::ops::find::FindIndex;
use lib::ops::ignore_elements::IgnoreElements;
use lib::ops::is_empty::IsEmpty;
use lib::ops::partition::Partition;
use lib::ops::single::{Single, SingleError};
use lib::ops::throw_if_empty::ThrowIfEmpty;

type N<T> = Notification<T, String>;

fn boom<T>() -> N<T> {
    Notification::Error("boom".to_string())
}

#[test]
fn test_every_all_pass() {
    let every = Every { source: (), predicate: () };
    let mut obs = every.subscribe();
    let mut out: Vec<N<bool>> = Vec::new();
    for v in [2, 4, 6] {
        out.extend(obs.next::<String>(v % 2 == 0));
    }
    out.extend(obs.complete::<String>());
    assert_eq!(out, vec![Notification::Next(true), Notification::Complete]);
}

#[test]
fn test_every_short_circuits_on_first_failure() {
    let every = Every { source: (), predicate: () };
    let mut obs = every.subscribe();
    let mut out: Vec<N<bool>> = Vec::new();
    let mut seen = 0;
    for v in [2, 3, 4, 5] {
        if obs.is_closed(false) {
            break;
        }
        seen += 1;
        out.extend(obs.next::<String>(v % 2 == 0));
    }
    assert_eq!(out, vec![Notification::Next(false), Notification::Complete]);
    assert_eq!(seen, 2);
    assert!(obs.complete::<String>().is_empty());
}

#[test]
fn test_every_empty_is_true() {
    let obs = Every { source: (), predicate: () }.subscribe();
    assert_eq!(obs.complete::<String>(), vec![Notification::Next(true), Notification::Complete]);
}

#[test]
fn test_every_error_propagation() {
    let obs = Every { source: (), predicate: () }.subscribe();
    assert_eq!(obs.error("boom".to_string()), vec![boom::<bool>()]);
}

#[test]
fn test_find_index_first_match() {
    let mut obs = FindIndex { source: (), predicate: () }.subscribe();
    let mut out: Vec<N<usize>> = Vec::new();
    let mut seen = 0;
    for v in [1, 3, 4, 6] {
        if obs.is_closed(false) {
            break;
        }
        seen += 1;
        out.extend(obs.next::<String>(v % 2 == 0));
    }
    assert_eq!(out, vec![Notification::Next(2), Notification::Complete]);
    assert_eq!(seen, 3);
}

#[test]
fn test_find_index_no_match_completes_empty() {
    let mut obs = FindIndex { source: (), predicate: () }.subscribe();
    let mut out: Vec<N<usize>> = Vec::new();
    for v in [1, 3, 5] {
        out.extend(obs.next::<String>(v % 2 == 0));
    }
    assert_eq!(obs.index, 3);
    out.extend(obs.complete::<String>());
    assert_eq!(out, vec![Notification::Complete]);
}

#[test]
fn test_find_index_error_propagation() {
    let obs = FindIndex { source: (), predicate: () }.subscribe();
    assert_eq!(obs.error("boom".to_string()), vec![boom::<usize>()]);
}

#[test]
fn test_is_empty_false_short_circuits() {
    let mut obs = IsEmpty { source: () }.subscribe();
    let mut out: Vec<N<bool>> = Vec::new();
    let mut seen = 0;
    for v in [1, 2, 3] {
        if obs.is_closed(false) {
            break;
        }
        seen += 1;
        out.extend(obs.next::<i32, String>(v));
    }
    assert_eq!(out, vec![Notification::Next(false), Notification::Complete]);
    assert_eq!(seen, 1);
}

#[test]
fn test_is_empty_true_on_empty() {
    let obs = IsEmpty { source: () }.subscribe();
    assert_eq!(obs.complete::<String>(), vec![Notification::Next(true), Notification::Complete]);
}

#[test]
fn test_is_empty_error_propagation() {
    let obs = IsEmpty { source: () }.subscribe();
    assert_eq!(obs.error("boom".to_string()), vec![boom::<bool>()]);
}

#[test]
fn test_ignore_elements_drops_items_and_completes() {
    let (_, obs) = IgnoreElements { source: () }.subscribe();
    let mut out: Vec<N<i32>> = Vec::new();
    let mut seen = 0;
    for v in [1, 2, 3] {
        seen += 1;
        out.extend(obs.next::<i32, String>(v));
    }
    out.extend(obs.complete::<i32, String>());
    assert_eq!(out, vec![Notification::Complete]);
    assert_eq!(seen, 3);
}

#[test]
fn test_ignore_elements_error_propagation() {
    let (_, obs) = IgnoreElements { source: () }.subscribe();
    assert_eq!(obs.error::<i32, String>("boom".to_string()), vec![boom::<i32>()]);
}

fn partition_run(keep: bool, items: &[i32]) -> Vec<N<i32>> {
    let obs = Partition { source: (), predicate: (), keep }.subscribe();
    let mut out = Vec::new();
    for &v in items {
        out.extend(obs.next::<i32, String>(v, v % 2 == 0));
    }
    out.extend(obs.complete::<i32, String>());
    out
}

#[test]
fn test_partition_splits_items() {
    let items = [1, 2, 3, 4, 5];
    assert_eq!(
        partition_run(true, &items),
        vec![Notification::Next(2), Notification::Next(4), Notification::Complete]
    );
    assert_eq!(
        partition_run(false, &items),
        vec![Notification::Next(1), Notification::Next(3), Notification::Next(5), Notification::Complete]
    );
}

#[test]
fn test_partition_error_reaches_both() {
    for keep in [true, false] {
        let obs = Partition { source: (), predicate: (), keep }.subscribe();
        assert_eq!(obs.error::<i32, String>("boom".to_string()), vec![boom::<i32>()]);
    }
}

fn single_run(items: Vec<i32>) -> (Vec<i32>, Option<SingleError>, bool) {
    let mut obs = Single { source: () }.subscribe::<i32>();
    let mut events: Vec<Notification<i32, SingleError>> = Vec::new();
    for v in items {
        if obs.is_closed(false) {
            break;
        }
        events.extend(obs.next::<SingleError>(v));
    }
    events.extend(obs.complete::<SingleError>());
    let mut values = Vec::new();
    let mut error = None;
    let mut completed = false;
    for e in events {
        match e {
            Notification::Next(v) => values.push(v),
            Notification::Error(err) => error = Some(err),
            Notification::Complete => completed = true,
        }
    }
    (values, error, completed)
}

#[test]
fn test_single_one_item() {
    assert_eq!(single_run(vec![7]), (vec![7], None, true));
}

#[test]
fn test_single_empty_errors() {
    assert_eq!(single_run(vec![]), (vec![], Some(SingleError::Empty), false));
}

#[test]
fn test_single_too_many_errors_early() {
    let mut obs = Single { source: () }.subscribe::<i32>();
    let mut seen = 0;
    let mut out: Vec<Notification<i32, SingleError>> = Vec::new();
    for v in [1, 2, 3, 4] {
        if obs.is_closed(false) {
            break;
        }
        seen += 1;
        out.extend(obs.next::<SingleError>(v));
    }
    assert_eq!(out, vec![Notification::Error(SingleError::TooMany)]);
    assert_eq!(seen, 2);
}

#[test]
fn test_single_source_error_propagates() {
    let obs = Single { source: () }.subscribe::<i32>();
    assert_eq!(obs.error(SingleError::TooMany), vec![Notification::Error(SingleError::TooMany)]);
}

#[test]
fn single_error_messages() {
    assert_eq!(SingleError::Empty.message(), "expected exactly one item, got none");
    assert_eq!(SingleError::TooMany.message(), "expected exactly one item, got more");
}

#[test]
fn test_throw_if_empty_errors_on_empty() {
    let (_, obs) = ThrowIfEmpty { source: (), error_fn: || "empty".to_string() }.subscribe();
    assert_eq!(obs.complete::<i32, String>(), vec![Notification::Error("empty".to_string())]);
}

#[test]
fn test_throw_if_empty_transparent_when_items() {
    let (_, mut obs) = ThrowIfEmpty { source: (), error_fn: || "empty".to_string() }.subscribe();
    let mut out: Vec<N<i32>> = Vec::new();
    out.extend(obs.next::<i32, String>(1));
    out.extend(obs.next::<i32, String>(2));
    out.extend(obs.complete::<i32, String>());
    assert_eq!(out, vec![Notification::Next(1), Notification::Next(2), Notification::Complete]);
}

#[test]
fn test_throw_if_empty_forwards_source_error() {
    let (_, obs) = ThrowIfEmpty { source: (), error_fn: || "empty".to_string() }.subscribe();
    assert_eq!(obs.error::<i32, String>("boom".to_string()), vec![boom::<i32>()]);
}

#[test]
fn test_end_with_appends_values() {
    let (_, obs) = EndWith { source: (), values: vec![3, 4] }.subscribe();
    let mut out: Vec<N<i32>> = Vec::new();
    out.extend(obs.next::<String>(1));
    out.extend(obs.next::<String>(2));
    out.extend(obs.complete::<String>(None));
    assert_eq!(
        out,
        vec![
            Notification::Next(1),
            Notification::Next(2),
            Notification::Next(3),
            Notification::Next(4),
            Notification::Complete
        ]
    );
}

#[test]
fn test_end_with_on_empty_source() {
    let (_, obs) = EndWith { source: (), values: vec![9] }.subscribe();
    assert_eq!(obs.complete::<String>(None), vec![Notification::Next(9), Notification::Complete]);
}

#[test]
fn test_end_with_not_emitted_on_error() {
    let (_, obs) = EndWith { source: (), values: vec![1] }.subscribe();
    assert_eq!(obs.error("boom".to_string()), vec![boom::<i32>()]);
}

#[test]
fn test_end_with_respects_take() {
    let (_, obs) = EndWith { source: (), values: vec![2, 3, 4] }.subscribe();
    let mut out: Vec<N<i32>> = Vec::new();
    out.extend(obs.next::<String>(1));
    // A `take(2)` downstream accepts one more item after the first.
    let mut tail = obs.complete::<String>(Some(1));
    assert_eq!(tail.pop(), Some(Notification::Complete));
    out.extend(tail);
    assert_eq!(out, vec![Notification::Next(1), Notification::Next(2)]);
}

