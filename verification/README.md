# nrf-softdevice (verified core)

Support library for the Nordic S340 SoftDevice (BLE + ANT+) on the nRF52840.

- `src/` — the library, verified with Verus. It decides which supervisor
  calls and register accesses are made and what their results mean:
  `error` (return codes), `ant` (channel setup, per-channel calls, ANT stack
  memory, events and the event handler slot), `softdevice` (configuration
  plan and enabling state machine, small SoftDevice calls), `ble` (event
  routing), `boot_helpers` (GPIO/APPROTECT register writes, UARTE0 teardown
  state machine), `fault` (fault classification, fault record, NVMC
  programming sequence), `once` (the guard that lets enabling happen once).
- `app/` — the code that runs on the chip: the ANT `svc` bindings, volatile
  register accesses, the fault handler, the async event loops and statics.
  The SoftDevice, SoC and BLE calls are made through the `Supervisor` trait,
  which the raw bindings crate implements.
- `tests/` — tests of the library on concrete values.
