# forge_runtime

A verified library for a deterministic coding-agent runtime: typed tool
calls and results, the agent state with its hash chain, the gates that
decide when a write, a completion or a commit is allowed, the tools'
decision logic, and the decisions of the runtime loop. Everything in
`src/` is Rust checked by Verus against its `requires`/`ensures`
contracts; `app/` is ordinary Rust around it (file system, processes,
sockets, JSON text, the loop driver).

## Layout

- `src/types.rs`, `src/state.rs`, `src/state_json.rs`: the data model, the
  agent state with its lifecycle and integrity hash, and its JSON form.
- `src/runtime_gates.rs`: read-before-write, completion and artifact gates.
- `src/runtime_step.rs`: one step of the runtime loop at a time — what
  follows a validation outcome (commit only after an accept; formatting
  fix, companion edit, deferral or revert after a reject), what happens to
  a tool call before it runs, what a planner answer leads to, and the
  decisions between the steps of a task chain.
- `src/progress_policy.rs`, `src/runtime_policies.rs`,
  `src/rust_recovery.rs`: no-progress policies, failure classification,
  the small-file fallback, revert planning and the Rust recovery edits.
- `src/tools/`: the tools' argument handling, plans and reports.
- `app/runtime_loop.rs`, `app/chain_loop.rs`: run the loop and chained
  runs, calling the step functions.
- `app/batch.rs`, `app/search.rs`, `app/file_ops.rs`: the tools' file
  system work; what they decide and report comes from `src/tools/`.

## What is not here

- The planner, the protocol output adapter, the validation pipeline, the
  governance audit and the chain executor are services of the project that
  this crate does not contain. The loops in `app/` take the planner, the
  validators and the chain executor through traits; the step functions
  take their answers as plain values.
- The entry point detector and the browser preview have no runner in the
  loop.
- Content hashes are SHA3-256 in lowercase hex. That choice is made here.
  The state hash covers the compact JSON text of the state's hashed
  fields, keys in ascending order (serde_json's default map order).
