# router_core

The decisions of a payment router, verified with Verus: where a payout goes and
through which connector, how payment methods are created, confirmed, kept and
retrieved, what the links show at which customers hand them in, and which
requests the connector to Thunes makes.

- `src/` is the library. A flow that needs storage, the locker, the vault, a
  connector or the clock does not call them: it returns a step, which either
  asks for one outside operation or ends the flow. The caller performs the
  operation and hands the reply to the `resume_...` function. Each step has an
  exact contract; the modules whose names end in `_laws`, and the proof functions
  at the end of the others, state what holds of every run.
- `src/outside.rs` holds the only statements that are not proved: those about
  calls into other crates.
- `app/` performs the operations: it runs the flows over traits for the services,
  and holds the JSON and database forms of the types.
- `tests/` runs the library on concrete values.
