# rustpods

Battery and device logic for AirPods over Bluetooth Low Energy, written in
Verus with its behaviour stated as contracts and proved.

- `src/` is the verified library: decoding Apple's manufacturer data,
  identifying AirPods models, filtering and ranking discovered devices,
  smoothing battery readings and deciding when to alert, the polling and
  retry decisions of the scanners, the event broker's subscriptions, adapter
  selection and history, configuration validation, error bookkeeping,
  diagnostics findings and the battery-intelligence significance rules.
- `tests/` runs the library on concrete values.
- `app/` holds what the library leaves to the outside world: files, programs,
  the Bluetooth stack, asynchronous plumbing and the floating-point estimates.
