use lib::notification::Notification;
use lib::ops::combine_latest_all::{CombineLatestAll, CombineLatestAllObserver};
use lib::ops::fork_join::{ForkJoin, ForkJoinObserver};
use lib::ops::race::{Race, RaceSide};
use lib::ops::race_all::RaceAll;
use lib::ops::sequence_equal::{SequenceEqual, SequenceEqualObserver, Side};

type N<T> = Notification<T, String>;

fn boom_err<T>() -> N<T> {
    Notification::Error("boom".to_string())
}

/// Subscribes synchronous sources one after the other, as the operator does.
fn combine_latest_sync(sources: Vec<Vec<i32>>) -> Vec<N<Vec<i32>>> {
    let op = CombineLatestAll { sources: sources.clone() };
    let (mut state, mut out) = op.subscribe::<i32, String>();
    for src in &sources {
        let obs = match state.enlist() {
            Some(o) => o,
            None => break,
        };
        let index = obs.index;
        for &v in src {
            out.extend(obs.next(&mut state, v));
        }
        out.extend(obs.complete(&mut state).out);
        state.settle(index);
    }
    out
}

#[test]
fn test_combine_latest_observables_sync_sources() {
    let out = combine_latest_sync(vec![vec![1, 2], vec![3, 4]]);
    assert_eq!(
        out,
        vec![Notification::Next(vec![2, 3]), Notification::Next(vec![2, 4]), Notification::Complete]
    );
}

#[test]
fn test_combine_latest_observables_shared() {
    let out = combine_latest_sync(vec![vec![1, 2], vec![3]]);
    assert_eq!(out, vec![Notification::Next(vec![2, 3]), Notification::Complete]);
}

#[test]
fn test_combine_latest_observables_empty_list_completes() {
    assert_eq!(combine_latest_sync(vec![]), vec![Notification::Complete]);
}

#[test]
fn test_combine_latest_observables_interleaved() {
    let op = CombineLatestAll { sources: vec![(), (), ()] };
    let (mut state, _) = op.subscribe::<i32, String>();
    let a = state.enlist().unwrap();
    assert!(state.settle(a.index));
    let b = state.enlist().unwrap();
    assert!(state.settle(b.index));
    let c = state.enlist().unwrap();
    assert!(state.settle(c.index));
    let mut out: Vec<N<Vec<i32>>> = Vec::new();
    out.extend(a.next(&mut state, 1));
    out.extend(b.next(&mut state, 10));
    assert!(out.is_empty());
    out.extend(c.next(&mut state, 100));
    out.extend(a.next(&mut state, 2));
    out.extend(b.next(&mut state, 20));
    assert_eq!(
        out,
        vec![
            Notification::Next(vec![1, 10, 100]),
            Notification::Next(vec![2, 10, 100]),
            Notification::Next(vec![2, 20, 100]),
        ]
    );
}

#[test]
fn test_combine_latest_observables_completes_when_all_complete() {
    let op = CombineLatestAll { sources: vec![(), ()] };
    let (mut state, _) = op.subscribe::<i32, String>();
    let a = state.enlist().unwrap();
    state.settle(a.index);
    let b = state.enlist().unwrap();
    state.settle(b.index);
    let mut out: Vec<N<Vec<i32>>> = Vec::new();
    out.extend(a.next(&mut state, 1));
    out.extend(b.next(&mut state, 2));
    out.extend(a.complete(&mut state).out);
    assert_eq!(out, vec![Notification::Next(vec![1, 2])]);
    out.extend(b.complete(&mut state).out);
    assert_eq!(out, vec![Notification::Next(vec![1, 2]), Notification::Complete]);
}

#[test]
fn test_combine_latest_observables_silent_source_completes_early() {
    let op = CombineLatestAll { sources: vec![(), ()] };
    let (mut state, _) = op.subscribe::<i32, String>();
    let a = state.enlist().unwrap();
    state.settle(a.index);
    let b = state.enlist().unwrap();
    state.settle(b.index);
    let r = a.complete::<i32, String>(&mut state);
    assert_eq!(r.out, vec![Notification::Complete]);
    assert_eq!(r.cancelled, vec![b.index]);
    // b's subscription was cancelled.
    assert!(!state.subs.contains(b.index));
    assert!(b.is_closed(&state, false));
}

#[test]
fn combine_latest_error_cancels_everything() {
    let op = CombineLatestAll { sources: vec![(), ()] };
    let (mut state, _) = op.subscribe::<i32, String>();
    let a = state.enlist().unwrap();
    state.settle(a.index);
    let b = CombineLatestAllObserver { index: state.enlist().unwrap().index };
    state.settle(b.index);
    let r = b.error::<i32, String>(&mut state, "boom".to_string());
    assert_eq!(r.out, vec![boom_err::<Vec<i32>>()]);
    assert_eq!(r.cancelled, vec![a.index]);
    assert!(!state.subs.contains(a.index));
    assert!(a.next::<i32, String>(&mut state, 5).is_empty());
}

fn fork_join_sync(sources: Vec<Vec<i32>>) -> Vec<N<Vec<i32>>> {
    let op = ForkJoin { sources: sources.clone() };
    let (mut state, mut out) = op.subscribe::<i32, String>();
    for src in &sources {
        let obs = match state.enlist() {
            Some(o) => o,
            None => break,
        };
        let index = obs.index;
        for &v in src {
            obs.next(&mut state, v);
        }
        out.extend(obs.complete(&mut state).out);
        state.settle(index);
    }
    out
}

#[test]
fn test_fork_join_last_values_in_order() {
    let out = fork_join_sync(vec![vec![1, 2], vec![3], vec![4, 5, 6]]);
    assert_eq!(out, vec![Notification::Next(vec![2, 3, 6]), Notification::Complete]);
}

#[test]
fn test_fork_join_empty_source_completes_without_value() {
    let out = fork_join_sync(vec![vec![1], vec![]]);
    assert_eq!(out, vec![Notification::Complete]);
}

#[test]
fn test_fork_join_empty_list_completes() {
    assert_eq!(fork_join_sync(vec![]), vec![Notification::Complete]);
}

#[test]
fn test_fork_join_shared() {
    assert_eq!(
        fork_join_sync(vec![vec![1, 2], vec![3]]),
        vec![Notification::Next(vec![2, 3]), Notification::Complete]
    );
}

#[test]
fn test_fork_join_waits_for_async_sources() {
    let op = ForkJoin { sources: vec![(), ()] };
    let (mut state, _) = op.subscribe::<i32, String>();
    let a = state.enlist().unwrap();
    state.settle(a.index);
    let b = state.enlist().unwrap();
    state.settle(b.index);
    let mut out: Vec<N<Vec<i32>>> = Vec::new();
    a.next(&mut state, 1);
    b.next(&mut state, 10);
    a.next(&mut state, 2);
    out.extend(a.complete(&mut state).out);
    assert!(out.is_empty());
    b.next(&mut state, 20);
    out.extend(b.complete(&mut state).out);
    assert_eq!(out, vec![Notification::Next(vec![2, 20]), Notification::Complete]);
}

#[test]
fn test_fork_join_error_unsubscribes_rest() {
    let op = ForkJoin { sources: vec![(), ()] };
    let (mut state, _) = op.subscribe::<i32, String>();
    let a = state.enlist().unwrap();
    state.settle(a.index);
    let b = ForkJoinObserver { index: state.enlist().unwrap().index };
    state.settle(b.index);
    let r = a.error::<i32, String>(&mut state, "boom".to_string());
    assert_eq!(r.out, vec![boom_err::<Vec<i32>>()]);
    assert_eq!(r.cancelled, vec![b.index]);
    assert!(!state.subs.contains(b.index));
    assert!(b.is_closed(&state, false));
}

#[test]
fn test_race_first_side_wins() {
    let race = Race { source_a: (), source_b: () };
    let (mut state, a) = race.subscribe();
    let b = state.observer_for_b().unwrap();
    assert!(state.keep_b());
    let mut out: Vec<N<i32>> = Vec::new();
    let r = a.next::<i32, String>(&mut state, 1);
    assert!(r.cancel_other);
    out.extend(r.out);
    let r = b.next::<i32, String>(&mut state, 10);
    assert!(!r.cancel_other);
    out.extend(r.out);
    out.extend(a.next::<i32, String>(&mut state, 2).out);
    out.extend(a.complete::<i32, String>(&mut state).out);
    assert_eq!(out, vec![Notification::Next(1), Notification::Next(2), Notification::Complete]);
    assert!(b.is_closed(&state, false));
}

#[test]
fn test_race_second_side_wins() {
    let race = Race { source_a: (), source_b: () };
    let (mut state, a) = race.subscribe();
    let b = state.observer_for_b().unwrap();
    let mut out: Vec<N<i32>> = Vec::new();
    out.extend(b.next::<i32, String>(&mut state, 10).out);
    out.extend(a.next::<i32, String>(&mut state, 1).out);
    out.extend(b.complete::<i32, String>(&mut state).out);
    assert_eq!(out, vec![Notification::Next(10), Notification::Complete]);
    assert_eq!(state.winner, Some(RaceSide::B));
}

#[test]
fn test_race_sync_source_wins_without_subscribing_other() {
    let race = Race { source_a: (), source_b: () };
    let (mut state, a) = race.subscribe();
    let out = a.next::<i32, String>(&mut state, 1).out;
    assert_eq!(out, vec![Notification::Next(1)]);
    assert!(state.observer_for_b().is_none());
}

#[test]
fn test_race_completion_counts_as_winning() {
    let race = Race { source_a: (), source_b: () };
    let (mut state, a) = race.subscribe();
    let b = state.observer_for_b().unwrap();
    let r = b.complete::<i32, String>(&mut state);
    assert!(r.cancel_other);
    assert_eq!(r.out, vec![Notification::Complete]);
    assert!(a.next::<i32, String>(&mut state, 1).out.is_empty());
}

#[test]
fn test_race_error_counts_as_winning() {
    let race = Race { source_a: (), source_b: () };
    let (mut state, a) = race.subscribe();
    let b = state.observer_for_b().unwrap();
    let r = a.error::<i32, String>(&mut state, "boom".to_string());
    assert!(r.cancel_other);
    assert_eq!(r.out, vec![boom_err::<i32>()]);
    assert!(!state.keep_b());
    assert!(b.next::<i32, String>(&mut state, 1).out.is_empty());
}

#[test]
fn test_race_observables_sync_first_wins() {
    let op = RaceAll { sources: vec![(), ()] };
    let mut state = op.subscribe();
    let first = state.enlist().unwrap();
    let r = first.next::<i32, String>(&mut state, 1);
    assert_eq!(r.out, vec![Notification::Next(1)]);
    assert!(r.cancelled.is_empty());
    assert!(state.settle(first.index));
    // The winner is known: the second source is never subscribed.
    assert!(state.enlist().is_none());
    let out: Vec<N<i32>> = state.finish_enlisting();
    assert!(out.is_empty());
}

#[test]
fn test_race_observables_later_source_wins() {
    let op = RaceAll { sources: vec![(), (), ()] };
    let mut state = op.subscribe();
    let mut observers = Vec::new();
    while let Some(o) = state.enlist() {
        assert!(state.settle(o.index));
        observers.push(o);
        if observers.len() == 3 {
            break;
        }
    }
    let r = observers[1].next::<i32, String>(&mut state, 7);
    assert_eq!(r.out, vec![Notification::Next(7)]);
    let mut cancelled = r.cancelled.clone();
    cancelled.sort();
    assert_eq!(cancelled, vec![0, 2]);
    assert!(observers[0].next::<i32, String>(&mut state, 1).out.is_empty());
    assert!(observers[2].is_closed(&state, false));
}

#[test]
fn test_race_observables_empty_list_completes() {
    let op = RaceAll::<()> { sources: vec![] };
    let mut state = op.subscribe();
    let out: Vec<N<i32>> = state.finish_enlisting();
    assert_eq!(out, vec![Notification::Complete]);
}

fn sequence_equal_run(a: Vec<i32>, b: Vec<i32>) -> Vec<N<bool>> {
    let op = SequenceEqual { source_a: (), source_b: () };
    let (mut state, obs_a) = op.subscribe::<i32>();
    let mut out = Vec::new();
    for v in a {
        out.extend(obs_a.next::<i32, String>(&mut state, v).out);
    }
    out.extend(obs_a.complete::<i32, String>(&mut state).out);
    if let Some(obs_b) = state.observer_for_b() {
        for v in b {
            if obs_b.is_closed(&state, false) {
                break;
            }
            out.extend(obs_b.next::<i32, String>(&mut state, v).out);
        }
        out.extend(obs_b.complete::<i32, String>(&mut state).out);
    }
    out
}

#[test]
fn test_sequence_equal_true() {
    assert_eq!(
        sequence_equal_run(vec![1, 2, 3], vec![1, 2, 3]),
        vec![Notification::Next(true), Notification::Complete]
    );
}

#[test]
fn test_sequence_equal_mismatch() {
    assert_eq!(
        sequence_equal_run(vec![1, 2, 3], vec![1, 9, 3]),
        vec![Notification::Next(false), Notification::Complete]
    );
}

#[test]
fn test_sequence_equal_length_differs() {
    assert_eq!(
        sequence_equal_run(vec![1, 2], vec![1, 2, 3]),
        vec![Notification::Next(false), Notification::Complete]
    );
    assert_eq!(
        sequence_equal_run(vec![1, 2, 3], vec![1, 2]),
        vec![Notification::Next(false), Notification::Complete]
    );
}

#[test]
fn test_sequence_equal_both_empty() {
    assert_eq!(sequence_equal_run(vec![], vec![]), vec![Notification::Next(true), Notification::Complete]);
}

#[test]
fn test_sequence_equal_interleaved_and_short_circuit() {
    let op = SequenceEqual { source_a: (), source_b: () };
    let (mut state, a) = op.subscribe::<i32>();
    let b = state.observer_for_b().unwrap();
    let mut out: Vec<N<bool>> = Vec::new();
    out.extend(a.next::<i32, String>(&mut state, 1).out);
    out.extend(b.next::<i32, String>(&mut state, 1).out);
    out.extend(a.next::<i32, String>(&mut state, 2).out);
    assert!(out.is_empty());
    let r = b.next::<i32, String>(&mut state, 3);
    assert!(r.cancel_other);
    out.extend(r.out);
    assert_eq!(out, vec![Notification::Next(false), Notification::Complete]);
    assert!(a.is_closed(&state, false));
}

#[test]
fn test_sequence_equal_error_propagation() {
    let op = SequenceEqual { source_a: (), source_b: () };
    let (mut state, a) = op.subscribe::<i32>();
    let b = SequenceEqualObserver { side: Side::B };
    let r = b.error::<i32, String>(&mut state, "boom".to_string());
    assert!(r.cancel_other);
    assert_eq!(r.out, vec![boom_err::<bool>()]);
    assert!(a.is_closed(&state, false));
}

#[test]
fn combine_latest_and_fork_join_take_owned_items() {
    let op = CombineLatestAll { sources: vec![(), ()] };
    let (mut state, _) = op.subscribe::<String, String>();
    let a = state.enlist().unwrap();
    state.settle(a.index);
    let b = state.enlist().unwrap();
    state.settle(b.index);
    let mut out: Vec<N<Vec<String>>> = Vec::new();
    out.extend(a.next(&mut state, "x".to_string()));
    out.extend(b.next(&mut state, "y".to_string()));
    out.extend(a.next(&mut state, "z".to_string()));
    assert_eq!(
        out,
        vec![
            Notification::Next(vec!["x".to_string(), "y".to_string()]),
            Notification::Next(vec!["z".to_string(), "y".to_string()]),
        ]
    );

    let op = ForkJoin { sources: vec![(), ()] };
    let (mut state, _) = op.subscribe::<String, String>();
    let a = state.enlist().unwrap();
    state.settle(a.index);
    let b = state.enlist().unwrap();
    state.settle(b.index);
    a.next(&mut state, "p".to_string());
    b.next(&mut state, "q".to_string());
    let mut out: Vec<N<Vec<String>>> = a.complete(&mut state).out;
    out.extend(b.complete(&mut state).out);
    assert_eq!(out, vec![Notification::Next(vec!["p".to_string(), "q".to_string()]), Notification::Complete]);
    assert!(state.values.is_empty());
}
