# bidder_core

Decision logic of a real-time bidder, verified with Verus.

- `src/` is the library. Every decision the bidder takes stands here with its
  contract: candidate retrieval from the campaign catalog, validation, limiting,
  frequency capping, budget pacing, ranking and response building; the circuit
  breaker, hedging and drop-policy state machines; experiment assignment, cascade
  selection and batching for scorers. Functions named `law_*` state properties that
  span several functions.
- `app/` is the runtime around it: async stages, database loading, model inference,
  metrics and traces. It holds the state that tasks share and calls the library for
  every decision.
- `tests/` exercises the library with the real `roaring`, `dashmap` and
  `serde_json` crates.

Conventions:

- Time is a `Span`: nanoseconds since a start that the process keeps. Functions that
  depend on time take the current reading as an argument.
- Scores are the bit patterns of single-precision numbers; the library compares them
  and never computes with them. Shares and thresholds are exact fractions.
- Money is in integer cents, response prices in millionths of the currency unit.
