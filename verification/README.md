# event_manager

A contract that manages events and sells tickets for them, verified with Verus.

* `src/` is the contract: a library without any call to a host. `EventManager`
  works on an `Env`, which holds the contract's entries as plain values and records
  what the contract asks of the host. `model.rs` says what each invocation comes to,
  `laws.rs` what holds of all of them together.
* `app/` binds the library to Soroban. It loads the entries that an invocation may
  read into an `Env`, lets the library decide, and carries out what the library asked
  for. It uses the standard library and is type-checked natively only: it is not built
  for the wasm target, where a contract has to do without the standard library.
* `tests/` runs the library on given values.
