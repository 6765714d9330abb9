use lib::notification::Notification;
use lib::ops::buffer_toggle::{BufferToggle, ToggleClosingObserver};
use lib::ops::buffer_when::BufferWhen;
use lib::ops::debounce_when::DebounceWhen;
use lib::ops::delay_when::DelayWhen;
use lib::ops::window::{Window, WindowNotifierObserver, WindowSourceObserver};

type N<T> = Notification<T, String>;

fn items<T: Clone>(out: &[N<T>]) -> Vec<T> {
    out.iter()
        .filter_map(|n| match n {
            Notification::Next(v) => Some(v.clone()),
            _ => None,
        })
        .collect()
}

#[test]
fn test_buffer_toggle_overlapping_buffers() {
    let op = BufferToggle { source: (), openings: (), closing_selector: () };
    let (mut state, openings, source) = op.subscribe::<i32>();
    let mut out: Vec<N<Vec<i32>>> = Vec::new();
    source.next(&mut state, 0);
    let close_a = openings.next(&mut state).unwrap();
    assert!(state.keep_closing(close_a.id));
    source.next(&mut state, 1);
    let close_b = openings.next(&mut state).unwrap();
    assert!(state.keep_closing(close_b.id));
    source.next(&mut state, 2);
    out.extend(close_a.next(&mut state));
    source.next(&mut state, 3);
    out.extend(close_b.next(&mut state));
    source.next(&mut state, 4);
    out.extend(source.complete(&mut state));
    assert_eq!(out, vec![Notification::Next(vec![1, 2]), Notification::Next(vec![2, 3]), Notification::Complete]);
    assert!(openings.is_closed(&state, false));
}

#[test]
fn test_buffer_toggle_flushes_open_buffers_on_completion() {
    let op = BufferToggle { source: (), openings: (), closing_selector: () };
    let (mut state, openings, source) = op.subscribe::<i32>();
    let a = openings.next(&mut state).unwrap();
    state.keep_closing(a.id);
    source.next(&mut state, 1);
    let b = openings.next(&mut state).unwrap();
    state.keep_closing(b.id);
    source.next(&mut state, 2);
    let out: Vec<N<Vec<i32>>> = source.complete(&mut state);
    assert_eq!(out, vec![Notification::Next(vec![1, 2]), Notification::Next(vec![2]), Notification::Complete]);
    assert!(!state.subs.contains(a.id) && !state.subs.contains(b.id));
}

#[test]
fn test_buffer_toggle_closing_completion_closes_buffer() {
    let op = BufferToggle { source: (), openings: (), closing_selector: () };
    let (mut state, openings, source) = op.subscribe::<i32>();
    let closing = openings.next(&mut state).unwrap();
    let id = closing.id;
    // The closing observable is empty: it completes while being subscribed.
    let out: Vec<N<Vec<i32>>> = closing.complete(&mut state);
    assert!(!state.keep_closing(id));
    source.next(&mut state, 1);
    assert_eq!(out, vec![Notification::Next(Vec::<i32>::new())]);
}

#[test]
fn test_buffer_toggle_error_propagation() {
    let op = BufferToggle { source: (), openings: (), closing_selector: () };
    let (mut state, openings, source) = op.subscribe::<i32>();
    let closing = openings.next(&mut state).unwrap();
    state.keep_closing(closing.id);
    let out: Vec<N<Vec<i32>>> = source.error(&mut state, "boom".to_string());
    assert_eq!(out, vec![Notification::Error("boom".to_string())]);
    assert!(openings.is_closed(&state, false));
    let stale = ToggleClosingObserver { id: closing.id };
    assert!(stale.next::<i32, String>(&mut state).is_empty());
}

#[test]
fn test_buffer_when_closes_on_selector_emission() {
    let op = BufferWhen { source: (), closing_selector: () };
    let (mut state, first, source) = op.subscribe::<i32>();
    let mut out: Vec<N<Vec<i32>>> = Vec::new();
    source.next(&mut state, 1);
    source.next(&mut state, 2);
    let (emitted, second) = first.next(&mut state);
    out.extend(emitted);
    let second = second.unwrap();
    source.next(&mut state, 3);
    let (emitted, third) = second.next(&mut state);
    out.extend(emitted);
    let third = third.unwrap();
    let (emitted, _fourth) = third.next(&mut state);
    out.extend(emitted);
    // A stale closing does nothing.
    let (stale, none) = first.next::<i32, String>(&mut state);
    assert!(stale.is_empty() && none.is_none());
    source.next(&mut state, 4);
    out.extend(source.complete(&mut state));
    assert_eq!(
        items(&out),
        vec![vec![1, 2], vec![3], vec![], vec![4]]
    );
    assert_eq!(out.last(), Some(&Notification::Complete));
}

#[test]
fn test_buffer_when_error_propagation_and_cleanup() {
    let op = BufferWhen { source: (), closing_selector: () };
    let (mut state, closing, source) = op.subscribe::<i32>();
    assert!(!closing.is_closed(&state, false));
    let out: Vec<N<Vec<i32>>> = source.error(&mut state, "boom".to_string());
    assert_eq!(out, vec![Notification::Error("boom".to_string())]);
    assert!(closing.is_closed(&state, false));
}

#[test]
fn test_window_rotates_on_notifier() {
    let w = Window::new((), ());
    let (mut state, mut outer) = w.subscribe::<i32, String>(false);
    let source = WindowSourceObserver {};
    let notifier = WindowNotifierObserver {};
    assert_eq!(state.windows.len(), 1);
    source.next(&mut state, 1);
    source.next(&mut state, 2);
    outer.extend(notifier.next(&mut state, false));
    source.next(&mut state, 3);
    outer.extend(notifier.next(&mut state, false));
    outer.extend(source.complete(&mut state));
    assert_eq!(
        outer,
        vec![Notification::Next(0), Notification::Next(1), Notification::Next(2), Notification::Complete]
    );
    let buckets: Vec<Vec<i32>> = state.windows.iter().map(|w| items(w)).collect();
    assert_eq!(buckets, vec![vec![1, 2], vec![3], vec![]]);
    assert!(state.windows.iter().all(|w| w.last() == Some(&Notification::Complete)));
}

#[test]
fn test_window_completes_open_window_on_source_completion() {
    let w = Window::new((), ());
    let (mut state, _) = w.subscribe::<i32, String>(false);
    let source = WindowSourceObserver {};
    source.next(&mut state, 1);
    let outer = source.complete(&mut state);
    assert_eq!(outer, vec![Notification::Complete]);
    assert_eq!(state.windows[0], vec![Notification::Next(1), Notification::Complete]);
    assert!(WindowNotifierObserver {}.is_closed(&state));
}

#[test]
fn window_error_reaches_the_open_window_and_the_outer_stream() {
    let w = Window::new((), ());
    let (mut state, _) = w.subscribe::<i32, String>(false);
    let source = WindowSourceObserver {};
    source.next(&mut state, 1);
    let outer = source.error(&mut state, "boom".to_string());
    assert_eq!(outer, vec![Notification::Error("boom".to_string())]);
    assert_eq!(state.windows[0], vec![Notification::Next(1), Notification::Error("boom".to_string())]);
}

#[test]
fn test_debounce_when_emits_when_duration_fires() {
    let op = DebounceWhen { source: (), selector: () };
    let (mut state, source) = op.subscribe::<i32>();
    let mut seen: Vec<N<i32>> = Vec::new();
    let d0 = source.next(&mut state, 1).unwrap();
    assert!(!d0.cancel_previous);
    state.keep_duration();
    assert!(seen.is_empty());
    seen.extend(d0.observer.next(&mut state));
    assert_eq!(items(&seen), vec![1]);
    let d1 = source.next(&mut state, 2).unwrap();
    state.keep_duration();
    let d2 = source.next(&mut state, 3).unwrap();
    assert!(d2.cancel_previous);
    state.keep_duration();
    seen.extend(d1.observer.next(&mut state));
    assert_eq!(items(&seen), vec![1]);
    seen.extend(d2.observer.next(&mut state));
    assert_eq!(items(&seen), vec![1, 3]);
}

#[test]
fn test_debounce_when_duration_completion_emits() {
    let op = DebounceWhen { source: (), selector: () };
    let (mut state, source) = op.subscribe::<i32>();
    let d = source.next(&mut state, 7).unwrap();
    state.keep_duration();
    let out: Vec<N<i32>> = d.observer.complete(&mut state);
    assert_eq!(out, vec![Notification::Next(7)]);
}

#[test]
fn test_debounce_when_source_completion_flushes_pending() {
    let op = DebounceWhen { source: (), selector: () };
    let (mut state, source) = op.subscribe::<i32>();
    let _d = source.next(&mut state, 5).unwrap();
    state.keep_duration();
    let (out, cancel) = source.complete::<i32, String>(&mut state);
    assert!(cancel);
    assert_eq!(out, vec![Notification::Next(5), Notification::Complete]);
}

#[test]
fn test_debounce_when_synchronous_duration_emits_immediately() {
    let op = DebounceWhen { source: (), selector: () };
    let (mut state, source) = op.subscribe::<i32>();
    let d = source.next(&mut state, 9).unwrap();
    // The duration emits while being subscribed.
    let out: Vec<N<i32>> = d.observer.next(&mut state);
    state.keep_duration();
    assert_eq!(out, vec![Notification::Next(9)]);
    assert!(!state.slot);
}

#[test]
fn test_debounce_when_duration_error_propagates() {
    let op = DebounceWhen { source: (), selector: () };
    let (mut state, source) = op.subscribe::<i32>();
    let d = source.next(&mut state, 1).unwrap();
    state.keep_duration();
    let out: Vec<N<i32>> = d.observer.error(&mut state, "boom".to_string());
    assert_eq!(out, vec![Notification::Error("boom".to_string())]);
    assert!(source.next(&mut state, 2).is_none());
}

#[test]
fn test_delay_when_reorders_by_delay() {
    let op = DelayWhen { source: (), selector: () };
    let (mut state, source) = op.subscribe();
    let mut out: Vec<N<i32>> = Vec::new();
    let mut slow = source.next(&mut state, 1).unwrap();
    state.keep(slow.id, false);
    let mut fast = source.next(&mut state, 2).unwrap();
    state.keep(fast.id, false);
    out.extend(source.complete::<i32, String>(&mut state));
    assert!(out.is_empty());
    out.extend(fast.next(&mut state));
    out.extend(slow.next(&mut state));
    assert_eq!(out, vec![Notification::Next(2), Notification::Next(1), Notification::Complete]);
}

#[test]
fn test_delay_when_completion_of_duration_emits() {
    let op = DelayWhen { source: (), selector: () };
    let (mut state, source) = op.subscribe();
    let inner = source.next(&mut state, 4).unwrap();
    state.keep(inner.id, false);
    let out: Vec<N<i32>> = inner.complete(&mut state);
    assert_eq!(out, vec![Notification::Next(4)]);
}

#[test]
fn test_delay_when_error_from_duration() {
    let op = DelayWhen { source: (), selector: () };
    let (mut state, source) = op.subscribe();
    let a = source.next(&mut state, 1).unwrap();
    state.keep(a.id, false);
    let b = source.next(&mut state, 2).unwrap();
    state.keep(b.id, false);
    let out: Vec<N<i32>> = a.error(&mut state, "boom".to_string());
    assert_eq!(out, vec![Notification::Error("boom".to_string())]);
    assert!(!state.subs.contains(b.id));
}

#[test]
fn test_delay_when_unsubscribe_cancels_pending() {
    let op = DelayWhen { source: (), selector: () };
    let (mut state, source) = op.subscribe();
    let a = source.next(&mut state, 1).unwrap();
    state.keep(a.id, false);
    let cancelled = state.subs.unsubscribe_all();
    assert_eq!(cancelled, vec![a.id]);
}

#[test]
fn buffer_toggle_clones_owned_items_into_every_buffer() {
    let op = BufferToggle { source: (), openings: (), closing_selector: () };
    let (mut state, openings, source) = op.subscribe::<String>();
    let a = openings.next(&mut state).unwrap();
    state.keep_closing(a.id);
    let b = openings.next(&mut state).unwrap();
    state.keep_closing(b.id);
    source.next(&mut state, "s".to_string());
    let out: Vec<N<Vec<String>>> = a.next(&mut state);
    assert_eq!(out, vec![Notification::Next(vec!["s".to_string()])]);
    source.next(&mut state, "t".to_string());
    let out: Vec<N<Vec<String>>> = b.next(&mut state);
    assert_eq!(out, vec![Notification::Next(vec!["s".to_string(), "t".to_string()])]);
}
