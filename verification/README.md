# lib: verified reactive-stream operators

Each operator of the library is written as the state machine its observers
drive: a state value shared by the observers of one subscription, and
observer methods (`next`, `error`, `complete`, `is_closed`) that take the
state, the event and whatever the surrounding runtime reports (whether the
downstream closed itself, what a predicate answered, what a subject holds)
and return the notifications to deliver downstream together with the
requests for the runtime (cancel a subscription, schedule a timer, subscribe
an inner observable).

Every event handler is verified to respect the observable grammar
(`Next* (Error | Complete)?`, nothing after a detach), and
`notification::lemma_operator_output_is_valid` lifts that to any sequence of
handler calls. The operators' contracts state exactly what is emitted and
how the state changes; laws that span several calls (connect-once and
restart for `share`, round trips through `materialize`/`dematerialize`,
first-to-emit wins for `race`, the single verdict of `sequence_equal` and
the single joined item of `fork_join` over any interleaving of their
sources, and others) are proof functions beside the operators they speak
of.

Layout:

- `src/notification.rs`: notifications, the grammar, and emission helpers.
- `src/subscriptions.rs`, `src/slots.rs`: shared bookkeeping (subscription
  ids, per-source value slots).
- `src/ops/`: one module per operator.
- `src/observable/`: sources built from callbacks, generators and factories.
- `src/from_signal.rs`: the node that mirrors a reactive signal into an
  observer.
- `src/clock.rs`: the system clock read by the time-stamping operators.
- `tests/`: scenarios driving the state machines as a runtime would.
- `app/`: `never_errors`, whose body is a `match` with no arms, which
  Verus does not accept.
