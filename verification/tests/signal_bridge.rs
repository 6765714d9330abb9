use lib::from_signal::{FromSignal, Node, RunStart, SignalSubscription};
use lib::notification::Notification;

/// The id under which the mirrored signal (or memo) tracks the node.
const SIGNAL: u64 = 1;

/// What the node mirrors: a plain signal, or a memo that doubles an input
/// and only notifies a change when its value changes.
enum Signal {
    Plain(i32),
    Doubled { input: i32, cached: i32 },
}

/// A single-threaded runtime around one signal node: the signal, the
/// executor's queued runs, and the observer.
struct Runtime {
    node: Node,
    signal: Signal,
    queued: usize,
    seen: Vec<i32>,
    /// The observer takes at most this many items, then closes itself.
    take: Option<usize>,
    /// The observer writes `v + 1` back to the signal while `v` is below this.
    write_back_below: Option<i32>,
}

impl Runtime {
    fn subscribe(signal: Signal, take: Option<usize>, write_back_below: Option<i32>) -> (Runtime, SignalSubscription) {
        let (_, node, sub) = FromSignal { signal: () }.subscribe();
        let mut rt = Runtime { node, signal, queued: 0, seen: Vec::new(), take, write_back_below };
        // The first run happens during subscribe.
        rt.run();
        (rt, sub)
    }

    fn value(&self) -> i32 {
        match self.signal {
            Signal::Plain(v) => v,
            Signal::Doubled { cached, .. } => cached,
        }
    }

    fn observer_closed(&self) -> bool {
        matches!(self.take, Some(n) if self.seen.len() >= n)
    }

    /// One run of the node, as the executor or subscribe performs it.
    fn run(&mut self) {
        if !self.node.bridge {
            let _ = self.node.run_start::<i32>(false, None);
            return;
        }
        let sources_changed = match &mut self.signal {
            Signal::Plain(_) => false,
            Signal::Doubled { input, cached } => {
                let fresh = *input * 2;
                let changed = fresh != *cached;
                *cached = fresh;
                changed
            }
        };
        let updated = self.node.update_if_necessary(sources_changed);
        let read = Some(self.value());
        match self.node.run_start(updated, read) {
            RunStart::Read { emit, .. } => {
                // Reading the signal tracks it again.
                self.node.add_source(SIGNAL);
                match emit {
                    Notification::Next(v) => self.next(v),
                    Notification::Error(e) => match e {},
                    Notification::Complete => return,
                }
            }
            RunStart::Unchanged => {}
            RunStart::Deferred => return,
        }
        let closed = self.observer_closed();
        if let Ok(true) = self.node.run_finish(closed) {
            self.queued += 1;
        }
    }

    fn next(&mut self, v: i32) {
        self.seen.push(v);
        if let Some(limit) = self.write_back_below {
            if v < limit {
                self.set(v + 1);
            }
        }
    }

    /// Writes the plain signal: a tracked node is marked dirty.
    fn set(&mut self, v: i32) {
        self.signal = Signal::Plain(v);
        if self.node.graph.sources.contains(&SIGNAL) && self.node.mark_dirty() {
            self.queued += 1;
        }
    }

    /// Writes the memo's input: a tracked node is asked to check.
    fn set_input(&mut self, v: i32) {
        if let Signal::Doubled { input, .. } = &mut self.signal {
            *input = v;
        }
        if self.node.graph.sources.contains(&SIGNAL) && self.node.mark_check() {
            self.queued += 1;
        }
    }

    /// Runs the queued tasks until none is left.
    fn poll(&mut self) {
        while self.queued > 0 {
            self.queued -= 1;
            self.node.tick();
            self.run();
        }
    }

    fn unsubscribe(&mut self, sub: SignalSubscription) {
        let _ = sub.unsubscribe(&mut self.node);
    }
}

#[test]
fn from_signal_emits_current_value_synchronously_and_changes_per_tick() {
    let (mut rt, sub) = Runtime::subscribe(Signal::Plain(1), None, None);
    assert_eq!(rt.seen, vec![1]);
    rt.set(2);
    assert_eq!(rt.seen, vec![1]);
    rt.poll();
    assert_eq!(rt.seen, vec![1, 2]);
    rt.set(3);
    rt.set(4);
    rt.poll();
    assert_eq!(rt.seen, vec![1, 2, 4]);
    assert!(!sub.is_closed(&rt.node));
    rt.unsubscribe(sub);
    rt.set(5);
    rt.poll();
    assert_eq!(rt.seen, vec![1, 2, 4]);
}

#[test]
fn from_signal_guard_unsubscribes_on_drop() {
    let (mut rt, sub) = Runtime::subscribe(Signal::Plain(1), None, None);
    rt.set(2);
    rt.poll();
    // The guard goes out of scope.
    rt.unsubscribe(sub);
    rt.set(3);
    rt.poll();
    assert_eq!(rt.seen, vec![1, 2]);
}

#[test]
fn from_signal_detaches_when_downstream_unsubscribes_mid_emission() {
    let (mut rt, sub) = Runtime::subscribe(Signal::Plain(1), Some(1), None);
    assert!(sub.is_closed(&rt.node));
    rt.set(2);
    rt.poll();
    assert_eq!(rt.seen, vec![1]);
}

#[test]
fn from_signal_follows_a_memo_and_skips_unchanged_values() {
    let (mut rt, _sub) = Runtime::subscribe(Signal::Doubled { input: 1, cached: 2 }, None, None);
    rt.set_input(1);
    rt.poll();
    assert_eq!(rt.seen, vec![2]);
    rt.set_input(2);
    rt.poll();
    rt.set_input(3);
    rt.poll();
    assert_eq!(rt.seen, vec![2, 4, 6]);
}

#[test]
fn from_signal_writing_back_to_the_signal_reschedules() {
    let (mut rt, _sub) = Runtime::subscribe(Signal::Plain(0), None, Some(3));
    rt.poll();
    assert_eq!(rt.seen, vec![0, 1, 2, 3]);
    assert_eq!(rt.value(), 3);
}
