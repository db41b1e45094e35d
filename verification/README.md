# copilot-sdk (verified core)

A Rust SDK for the GitHub Copilot runtime whose decision logic is written
in Verus and proved against its contracts.

- `src/` is the library. Every function in it is verified: JSON values and
  their model, name-keyed registries, tool filters, tool definitions and
  results, system-message customization, permission and elicitation
  answers, the session's decisions on events, tool calls, hooks, UI dialogs
  and waits, the replies it sends, typed hook inputs and outputs, the
  parameters and responses of the management requests (models, options,
  plans, agents, fleets, shell processes, workspace files), the session filesystem's errors and
  configuration, trace propagation, the request/result types of the RPC
  surface, and the parameters of every RPC namespace method with the wire
  objects of the request types they carry. The few calls into `serde_json` and `std` that the verifier
  cannot see stand behind small trusted wrappers whose contracts say what is
  assumed of them.
- `app/` is the asynchronous runtime around it: conversion between
  `serde_json` values and the library's JSON values, the session that holds
  handlers and talks to the runtime through an injected invoke function,
  serde copies of the agent and workspace-file listings, the RPC namespaces
  (`app/rpc.rs`: build the parameters with the library, call, read the
  reply into the serde copies of `app/rpc_wire.rs`), the client-level
  connection, the infinite
  session configuration (which holds floats), and the session filesystem
  provider traits.
- `tests/` exercises the library on concrete values.
