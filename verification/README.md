# bleavit

Verified core of the Bleavit futarchy runtime, written in Verus.

- `src/execution_guard/`: the queue of decided proposals, the checks made at
  dispatch time, batch dispatch with upgrade authorization, the bounded record
  ring and the two-phase runtime upgrade. Each operation is specified as a
  transition of an abstract guard state; `laws.rs` proves what every operation
  keeps.
- `src/welfare/`: metric specification registration, welfare pillars and
  gates in nine-decimal fixed point, per-epoch snapshots, daily gate breaches
  and the settlement score. Powers with fractional exponents are read from a
  table; a computation that lacks one names it (`Eval::NeedsPower`) and
  changes nothing.
- `src/runtime.rs`, `src/origins.rs`: pallet sets, system call domains, the
  base filter's upgrade rule, fee and USDC configuration, genesis validation.
- `src/migrations.rs`: raw storage keys of retired values and the decisions
  of the migrations and of their before/after checks.
- `src/views.rs`: assembly rules of the runtime's read-only views.
- `src/xcm_filter.rs`: classification of XCM calls and the reserve transfer
  filter.

`app/` holds the glue that the library leaves to its host: storage access,
the safety filter's verdicts, the epoch's acknowledgement of an execution and
the fixed-point power function.
