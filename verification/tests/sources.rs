use std::cell::Cell;
use std::rc::Rc;

use lib::from_signal::{FromSignal, Node, RunStart, SignalSubscription};
use lib::notification::Notification;
use lib::observable::from_callback::FromCallback;
use lib::observable::generate::Generate;
use lib::observable::iif::{Iif, IifBranch};
use lib::observable::using::Using;

type N<T> = Notification<T, String>;

#[test]
fn test_from_callback_emits_and_completes() {
    let source = FromCallback::<_, i32>::new(|emit: &mut dyn FnMut(i32)| {
        emit(1);
        emit(2);
        emit(3);
    });
    let mut emitted = Vec::new();
    (source.f)(&mut |v| emitted.push(v));
    let out: Vec<N<i32>> = source.subscribe(emitted, None);
    assert_eq!(
        out,
        vec![Notification::Next(1), Notification::Next(2), Notification::Next(3), Notification::Complete]
    );
}

#[test]
fn test_from_callback_respects_take() {
    let source = FromCallback::<(), i32>::new(());
    let out: Vec<N<i32>> = source.subscribe(vec![1, 2, 3, 4], Some(2));
    assert_eq!(out, vec![Notification::Next(1), Notification::Next(2), Notification::Complete]);
    let clone = source.clone();
    assert_eq!(clone.subscribe::<String>(vec![], Some(0)), vec![Notification::Complete]);
}

#[test]
fn test_generate_counts() {
    let mut g = Generate::new(0, |x: &i32| *x < 5, |x: &i32| x + 1);
    let mut out = Vec::new();
    while let Some(v) = g.next() {
        out.push(v);
    }
    assert_eq!(out, vec![0, 1, 2, 3, 4]);
    assert!(g.next().is_none());
}

#[test]
fn test_generate_empty_when_condition_false() {
    let mut g = Generate::new(10, |x: &i32| *x < 5, |x: &i32| x + 1);
    assert!(g.next().is_none());
}

#[test]
fn test_generate_is_lazy_with_take() {
    let steps = Rc::new(Cell::new(0));
    let counter = steps.clone();
    let mut g = Generate::new(1, |_: &i32| true, move |x: &i32| {
        counter.set(counter.get() + 1);
        x * 2
    });
    let first: Vec<i32> = (0..3).map(|_| g.next().unwrap()).collect();
    assert_eq!(first, vec![1, 2, 4]);
    assert_eq!(steps.get(), 3);
}

#[test]
fn test_iif_then() {
    let iif = Iif { condition: || true, then_source: "then", else_source: "else" };
    assert!(matches!(iif.subscribe(), IifBranch::Then("then")));
}

#[test]
fn test_iif_else() {
    let iif = Iif { condition: || false, then_source: "then", else_source: "else" };
    assert!(matches!(iif.subscribe(), IifBranch::Else("else")));
}

#[test]
fn test_iif_evaluates_at_subscribe() {
    let flag = Rc::new(Cell::new(false));
    let f = flag.clone();
    let iif = Iif { condition: move || f.get(), then_source: 1, else_source: 2 };
    flag.set(true);
    assert!(matches!(iif.subscribe(), IifBranch::Then(1)));
}

struct Resource {
    dropped: Rc<Cell<bool>>,
    value: i32,
}

impl Drop for Resource {
    fn drop(&mut self) {
        self.dropped.set(true);
    }
}

#[test]
fn test_using_drops_resource_on_complete() {
    let dropped = Rc::new(Cell::new(false));
    let d = dropped.clone();
    let using = Using::new(move || Resource { dropped: d, value: 3 }, |r: &Resource| vec![r.value, r.value * 2]);
    let (mut holder, source, observer, _sub) = using.subscribe();
    let mut out: Vec<N<i32>> = Vec::new();
    for v in source {
        out.extend(observer.next::<i32, String>(v));
    }
    let (released, end) = observer.complete::<Resource, i32, String>(&mut holder);
    out.extend(end);
    assert!(!dropped.get());
    drop(released);
    assert!(dropped.get());
    assert_eq!(out, vec![Notification::Next(3), Notification::Next(6), Notification::Complete]);
}

#[test]
fn test_using_drops_resource_on_unsubscribe() {
    let dropped = Rc::new(Cell::new(false));
    let d = dropped.clone();
    let using = Using::new(move || Resource { dropped: d, value: 1 }, |_: &Resource| ());
    let (mut holder, _source, _observer, sub) = using.subscribe();
    assert!(!sub.is_closed(false, &holder));
    let released = sub.unsubscribe(&mut holder);
    assert!(holder.is_none());
    drop(released);
    assert!(dropped.get());
}

#[test]
fn test_using_resource_available_to_factory() {
    let using = Using::new(|| 41, |r: &i32| r + 1);
    let (holder, source, _, _) = using.subscribe();
    assert_eq!(holder, Some(41));
    assert_eq!(source, 42);
}

#[test]
fn using_error_releases_resource() {
    let using = Using::new(|| 5, |_: &i32| ());
    let (mut holder, _, observer, _) = using.subscribe();
    let (released, out) = observer.error::<i32, i32, String>(&mut holder, "boom".to_string());
    assert_eq!(released, Some(5));
    assert!(holder.is_none());
    assert_eq!(out, vec![Notification::Error("boom".to_string())]);
}

/// Runs one scheduled tick of a signal node: `value` is what the signal
/// holds (`None` once disposed) and `sources_changed` what its sources say.
fn run_tick(node: &mut Node, sources_changed: bool, value: Option<i32>, observer_closed: bool) -> Option<N<i32>> {
    node.tick();
    let updated = node.update_if_necessary(sources_changed);
    let (emitted, finish) = match node.run_start(updated, value) {
        RunStart::Read { emit, .. } => match emit {
            Notification::Next(v) => (Some(Notification::Next(v)), true),
            Notification::Error(e) => match e {},
            Notification::Complete => (Some(Notification::Complete), false),
        },
        RunStart::Unchanged => (None, true),
        RunStart::Deferred => (None, false),
    };
    if finish {
        let _ = node.run_finish(observer_closed);
    }
    emitted
}

#[test]
fn from_signal_emits_current_value_then_one_value_per_tick() {
    let (_, mut node, sub) = FromSignal { signal: () }.subscribe();
    let mut seen = Vec::new();
    // The first run reads the current value.
    seen.extend(run_tick(&mut node, false, Some(1), false));
    // Two writes before the tick: one run is spawned and reads the latest.
    assert!(node.mark_dirty());
    assert!(!node.mark_dirty());
    seen.extend(run_tick(&mut node, false, Some(3), false));
    // Nothing changed: the run emits nothing.
    assert!(node.mark_check());
    seen.extend(run_tick(&mut node, false, Some(3), false));
    assert_eq!(seen, vec![Notification::Next(1), Notification::Next(3)]);
    let cleared = sub.unsubscribe(&mut node);
    assert!(cleared.is_empty());
    assert!(node.is_detached());
    assert!(!node.mark_dirty());
}

#[test]
fn from_signal_completes_when_the_signal_is_disposed() {
    let (_, mut node, sub) = FromSignal { signal: () }.subscribe();
    node.add_source(7);
    node.add_source(7);
    node.add_source(8);
    assert_eq!(node.graph.sources, vec![7, 8]);
    let emitted = run_tick(&mut node, false, None, false);
    assert_eq!(emitted, Some(Notification::Complete));
    assert!(node.is_detached());
    assert!(sub.is_closed(&node));
}

#[test]
fn from_signal_defers_a_run_reentered_from_the_observer() {
    let (_, mut node, _sub) = FromSignal { signal: () }.subscribe();
    let updated = node.update_if_necessary(false);
    match node.run_start(updated, Some(1)) {
        RunStart::Read { emit, cleared } => {
            assert_eq!(emit, Notification::Next(1));
            assert!(cleared.is_empty());
        }
        _ => panic!("the first run reads"),
    }
    // The observer writes back to the signal while handling the value.
    node.graph.dirty = true;
    assert!(matches!(node.run_start::<i32>(true, Some(2)), RunStart::Deferred));
    // The deferred run is queued once the first one finishes.
    assert_eq!(node.run_finish(false), Ok(true));
    assert!(node.graph.scheduled);
}

#[test]
fn signal_node_detaches_when_its_observer_closes() {
    let (_, mut node, _sub) = FromSignal { signal: () }.subscribe();
    node.add_source(4);
    let emitted = run_tick(&mut node, false, Some(1), true);
    assert_eq!(emitted, Some(Notification::Next(1)));
    assert!(node.is_detached());
    assert!(!node.bridge);
    let dead = SignalSubscription { alive: false };
    assert!(dead.is_closed(&node));
    let clone = FromSignal { signal: 5 }.clone();
    assert_eq!(clone.signal, 5);
}
