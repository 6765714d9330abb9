use lib::notification::Notification;
use lib::ops::exhaust_map::{ExhaustMap, ExhaustMapInnerObserver};
use lib::ops::expand::{Expand, ExpandObserver, ExpandState};
use lib::ops::merge_scan::MergeScan;
use lib::ops::switch_scan::{SwitchScan, SwitchScanInnerObserver};

type N<T> = Notification<T, String>;

#[test]
fn test_switch_scan_accumulates_through_sync_inners() {
    let op = SwitchScan { source: (), func: (), seed: 0 };
    let (mut state, outer, inner) = op.subscribe();
    let mut out: Vec<N<i32>> = Vec::new();
    for x in [1, 2, 3] {
        let start = outer.next(&mut state, false).unwrap();
        assert!(!start.cancel_previous);
        // The inner `of(acc + x)` emits and completes synchronously.
        out.extend(inner.next::<i32, String>(&mut state, start.acc + x));
        out.extend(SwitchScanInnerObserver {}.complete::<i32, String>(&mut state));
        state.keep_inner();
    }
    out.extend(outer.complete::<i32, String>(&mut state));
    assert_eq!(
        out,
        vec![Notification::Next(1), Notification::Next(3), Notification::Next(6), Notification::Complete]
    );
}

#[test]
fn test_switch_scan_switches_to_the_latest_inner() {
    let op = SwitchScan { source: (), func: (), seed: 0 };
    let (mut state, outer, inner) = op.subscribe();
    let mut out: Vec<N<i32>> = Vec::new();
    let mut seeds = Vec::new();
    let first = outer.next(&mut state, false).unwrap();
    seeds.push(first.acc);
    state.keep_inner();
    out.extend(inner.next::<i32, String>(&mut state, 10));
    out.extend(inner.next::<i32, String>(&mut state, 11));
    let second = outer.next(&mut state, false).unwrap();
    assert!(second.cancel_previous);
    seeds.push(second.acc);
    state.keep_inner();
    out.extend(inner.next::<i32, String>(&mut state, 20));
    assert_eq!(seeds, vec![0, 11]);
    out.extend(outer.complete::<i32, String>(&mut state));
    assert_eq!(out, vec![Notification::Next(10), Notification::Next(11), Notification::Next(20)]);
    out.extend(inner.complete::<i32, String>(&mut state));
    assert_eq!(out.last(), Some(&Notification::Complete));
}

#[test]
fn test_switch_scan_propagates_inner_error() {
    let op = SwitchScan { source: (), func: (), seed: 0 };
    let (mut state, outer, inner) = op.subscribe();
    outer.next(&mut state, false).unwrap();
    state.keep_inner();
    let out = inner.error::<i32, String>(&mut state, "boom".to_string());
    assert_eq!(out, vec![Notification::Error("boom".to_string())]);
    assert!(outer.next(&mut state, false).is_none());
    assert!(!state.unsubscribe());
}

#[test]
fn test_exhaust_map_drops_outer_items_while_inner_active() {
    let op = ExhaustMap { source: (), func: () };
    let (mut state, outer, inner) = op.subscribe();
    let mut out: Vec<N<i32>> = Vec::new();
    assert!(outer.next(&mut state, false));
    state.keep_inner();
    out.extend(inner.next::<i32, String>(&state, 10));
    assert!(!outer.next(&mut state, false));
    out.extend(inner.next::<i32, String>(&state, 11));
    out.extend(ExhaustMapInnerObserver {}.complete::<i32, String>(&mut state));
    assert!(outer.next(&mut state, false));
    state.keep_inner();
    out.extend(inner.next::<i32, String>(&state, 12));
    assert_eq!(out, vec![Notification::Next(10), Notification::Next(11), Notification::Next(12)]);
}

#[test]
fn test_exhaust_map_sync_inners_all_run() {
    let op = ExhaustMap { source: (), func: () };
    let (mut state, outer, inner) = op.subscribe();
    let mut out: Vec<N<i32>> = Vec::new();
    for v in [1, 2, 3] {
        assert!(outer.next(&mut state, false));
        out.extend(inner.next::<i32, String>(&state, v * 10));
        out.extend(inner.next::<i32, String>(&state, v * 10 + 1));
        out.extend(ExhaustMapInnerObserver {}.complete::<i32, String>(&mut state));
        state.keep_inner();
    }
    let values: Vec<i32> = out
        .iter()
        .filter_map(|n| match n {
            Notification::Next(v) => Some(*v),
            _ => None,
        })
        .collect();
    assert_eq!(values, vec![10, 11, 20, 21, 30, 31]);
}

#[test]
fn test_exhaust_map_completes_after_inner() {
    let op = ExhaustMap { source: (), func: () };
    let (mut state, outer, inner) = op.subscribe();
    assert!(outer.next(&mut state, false));
    state.keep_inner();
    assert!(outer.complete::<i32, String>(&mut state).is_empty());
    assert_eq!(inner.complete::<i32, String>(&mut state), vec![Notification::Complete]);
}

#[test]
fn test_exhaust_map_error_propagation() {
    let op = ExhaustMap { source: (), func: () };
    let (mut state, outer, _) = op.subscribe();
    let (out, cancel) = outer.error::<i32, String>(&mut state, "boom".to_string());
    assert_eq!(out, vec![Notification::Error("boom".to_string())]);
    assert!(!cancel);
}

#[test]
fn test_exhaust_map_unsubscribe_cancels_inner() {
    let op = ExhaustMap { source: (), func: () };
    let (mut state, outer, _) = op.subscribe();
    assert!(outer.next(&mut state, false));
    state.keep_inner();
    assert!(state.unsubscribe());
}

/// Feeds `value` through an expand observer, recursing synchronously into
/// the children `f` produces, as a synchronous inner observable would.
fn expand_feed(state: &mut ExpandState, obs: &ExpandObserver, value: i32, f: &dyn Fn(i32) -> Vec<i32>, out: &mut Vec<N<i32>>) {
    let (emitted, child) = obs.next::<i32, String>(state, value);
    out.extend(emitted);
    if let Some(child) = child {
        let id = child.id.unwrap();
        for c in f(value) {
            expand_feed(state, &child, c, f, out);
        }
        out.extend(child.complete::<i32, String>(state));
        state.keep(id, true);
    }
}

#[test]
fn test_expand_recurses_until_empty() {
    let (mut state, source) = Expand { source: (), func: () }.subscribe();
    let mut out = Vec::new();
    let f = |v: i32| if v < 8 { vec![v * 2] } else { vec![] };
    expand_feed(&mut state, &source, 1, &f, &mut out);
    out.extend(source.complete::<i32, String>(&mut state));
    assert_eq!(
        out,
        vec![
            Notification::Next(1),
            Notification::Next(2),
            Notification::Next(4),
            Notification::Next(8),
            Notification::Complete
        ]
    );
}

#[test]
fn test_expand_fans_out_multiple_children() {
    let (mut state, source) = Expand { source: (), func: () }.subscribe();
    let mut out = Vec::new();
    let f = |v: i32| if v < 4 { vec![v * 2, v * 2 + 1] } else { vec![] };
    expand_feed(&mut state, &source, 1, &f, &mut out);
    out.extend(source.complete::<i32, String>(&mut state));
    let values: Vec<i32> = out
        .iter()
        .filter_map(|n| match n {
            Notification::Next(v) => Some(*v),
            _ => None,
        })
        .collect();
    assert_eq!(values, vec![1, 2, 4, 5, 3, 6, 7]);
    assert_eq!(out.last(), Some(&Notification::Complete));
}

#[test]
fn test_expand_waits_for_async_inner() {
    let (mut state, source) = Expand { source: (), func: () }.subscribe();
    let (_, child) = source.next::<i32, String>(&mut state, 1);
    let child = child.unwrap();
    state.keep(child.id.unwrap(), false);
    assert!(source.complete::<i32, String>(&mut state).is_empty());
    assert_eq!(child.complete::<i32, String>(&mut state), vec![Notification::Complete]);
}

#[test]
fn test_expand_unsubscribe_cancels_inner() {
    let (mut state, source) = Expand { source: (), func: () }.subscribe();
    let (_, child) = source.next::<i32, String>(&mut state, 1);
    let id = child.unwrap().id.unwrap();
    state.keep(id, false);
    assert!(state.subs.contains(id));
    let cancelled = state.subs.unsubscribe_all();
    assert_eq!(cancelled, vec![id]);
}

#[test]
fn test_merge_scan_sync_accumulates() {
    let op = MergeScan { source: (), func: (), seed: 0 };
    let (mut state, source) = op.subscribe();
    let mut out: Vec<N<i32>> = Vec::new();
    for v in [1, 2, 3] {
        let (acc, inner) = source.next(&mut state).unwrap();
        let id = inner.id;
        out.extend(inner.next::<i32, String>(&mut state, acc + v));
        out.extend(inner.complete::<i32, String>(&mut state));
        state.keep(id, true);
    }
    out.extend(source.complete::<i32, String>(&mut state));
    assert_eq!(
        out,
        vec![Notification::Next(1), Notification::Next(3), Notification::Next(6), Notification::Complete]
    );
}

#[test]
fn test_merge_scan_multiple_inner_emissions() {
    let op = MergeScan { source: (), func: (), seed: 0 };
    let (mut state, source) = op.subscribe();
    let mut out: Vec<N<i32>> = Vec::new();
    for v in [1, 2] {
        let (acc, inner) = source.next(&mut state).unwrap();
        let id = inner.id;
        for item in [acc + v, acc + v * 10] {
            out.extend(inner.next::<i32, String>(&mut state, item));
        }
        out.extend(inner.complete::<i32, String>(&mut state));
        state.keep(id, true);
    }
    let values: Vec<i32> = out
        .iter()
        .filter_map(|n| match n {
            Notification::Next(v) => Some(*v),
            _ => None,
        })
        .collect();
    assert_eq!(values, vec![1, 10, 12, 30]);
}

#[test]
fn test_merge_scan_waits_for_inner_completion() {
    let op = MergeScan { source: (), func: (), seed: 0 };
    let (mut state, source) = op.subscribe();
    let (_, inner) = source.next(&mut state).unwrap();
    state.keep(inner.id, false);
    assert!(source.complete::<i32, String>(&mut state).is_empty());
    assert_eq!(inner.complete::<i32, String>(&mut state), vec![Notification::Complete]);
}

#[test]
fn test_merge_scan_inner_error() {
    let op = MergeScan { source: (), func: (), seed: 0 };
    let (mut state, source) = op.subscribe();
    let (_, inner) = source.next(&mut state).unwrap();
    let out = inner.error::<i32, String>(&mut state, "boom".to_string());
    assert_eq!(out, vec![Notification::Error("boom".to_string())]);
    assert!(source.next(&mut state).is_none());
}

#[test]
fn scans_take_owned_accumulators() {
    let op = MergeScan { source: (), func: (), seed: String::from("a") };
    let (mut state, source) = op.subscribe();
    let (acc, inner) = source.next(&mut state).unwrap();
    assert_eq!(acc, "a");
    let out = inner.next::<String, String>(&mut state, acc + "b");
    assert_eq!(out, vec![Notification::Next("ab".to_string())]);
    assert_eq!(state.acc, "ab");

    let op = SwitchScan { source: (), func: (), seed: String::from("x") };
    let (mut state, outer, inner) = op.subscribe();
    let start = outer.next(&mut state, false).unwrap();
    assert_eq!(start.acc, "x");
    let out = inner.next::<String, String>(&mut state, start.acc + "y");
    assert_eq!(out, vec![Notification::Next("xy".to_string())]);
    assert_eq!(state.acc, "xy");
}
