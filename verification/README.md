# hisi-rf-core

Chip-neutral radio contracts: Wi-Fi control, L2 device ownership, a mandatory
background runner, bounded events, and typed BLE and SLE configuration, without
owning an IP stack. Chip repositories implement the backend traits; applications
drive the handles.

The library under `src/` is verified with Verus. It allocates: event queues grow
on the heap up to their bound, diagnostics are written to a `String`, and one poll
of a completion is boxed. State that several handles share is an argument of the
operations that touch it, and waits are polls, so every operation is a plain
function with a contract:

- `wifi`, `ble`, `sle`: validated configuration, results, and failures
- `radio`, `state`, `transport`: ownership, the control plane, the blocking
  runner, and the channels between them
- `incremental`: bounded polling with operation identities, cancellation, fair
  wake selection, and the runner built from them
- `control`: command, event, and lifecycle transport shared by other protocols
- `diagnostics`, `text`: stable machine-readable failures

`app/` puts the state behind a mutex with static storage, turns the polls into
futures, and adapts the L2 device to `smoltcp`.
