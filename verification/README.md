# rust-utils

Reusable building blocks for network services, verified with Verus: backoff,
retry and restart policies, a throttle, rate-limit quotas, JSON input
validation, NATS message handling and redacted secrets.

- `src/` holds the library. Every policy is a decision procedure: it takes
  what happened (the result of an attempt, the end of a run, the outcome of a
  publish) and says what comes next. Its contracts state the decision over
  mathematical views of the types, and the public proof functions state what
  holds of whole runs. A function that asks the clock, a cancellation signal or
  an outside error says that its decision goes by the answer it got; which
  answer that is, no contract says.
- `app/` holds the drivers around it: the loops that run the policies on
  tokio, reqwest, governor and async-nats, and the types with the traits of
  those crates.
- `tests/` holds the tests of the library.

Spans of time are whole nanoseconds (`time::Duration`); a point in time is the
span since an origin that the caller picks on a monotonic clock. Where a delay
is jittered, the function that reads the clock stands beside one that takes
the number to draw from.

What Verus is asked to believe of outside code is marked where it stands: the
clock, the rendering of spans, texts and paths, `governor`'s quotas,
`serde_json`'s parser, the cancellation signal of `tokio-util` and the errors
of `reqwest`.
