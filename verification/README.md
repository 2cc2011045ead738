# rrtk: Rust Robotics ToolKit, verified

A data flow-based robotics framework built around the `Getter`, `Settable`, `Updatable` and
`TimeGetter` traits, a stream system for processing timestamped data, a graph-based device
system, and exact integer time and dimensionless arithmetic. The library is written in Verus:
everything in `src/` is verified, and the functions that compute something state it in
`requires`/`ensures` contracts that Verus proves. What a getter written outside verified code
returns is unknown to these contracts: a stream promises its output as a function of its inputs'
outputs only when its inputs obey their own spec functions (`obeys_get_spec`).

## Layout

- `src/` is the verified library.
  - `datum.rs`: timestamped values (`Datum`), `Output`, and their arithmetic.
  - `interfaces.rs`: the getter, settable, updatable, time getter and chronology traits, with
    the spec functions through which streams state what they return, and small getters built on
    them (`ConstantGetter`, `NoneGetter`, `Feeder`, `GetterFromChronology`, ...).
  - `streams.rs` and `streams/`: the stream system (expiry, latest of several inputs, logic,
    control flow, converters, sums, products, differences, quotients, derivatives, integrals,
    moving averages). Each stream states its output as a function of its inputs' outputs.
  - `dimensions.rs` and `dimensions/`: `Time`, `DimensionlessInteger`, the exact rational
    `DimensionlessFraction` (with proofs that its equality is an equivalence and its order is
    total), runtime `Unit`s, and layout-compatible conversions.
  - `compile_time_integer.rs`, `compile_time_numbers.rs`, `compile_time_dimensions.rs`: numbers
    encoded as types, and quantities that carry their unit in their type.
  - `devices.rs` and `devices/`: the device `System`, a set of doubly linked chains of nodes
    whose well-formedness is proved to be kept by every operation, and the getter wrapper.
  - `error.rs`, `process.rs`, `position.rs`, `stulta.rs`, `pointer_dereferencer.rs`: error
    types, process signals, position derivatives, halving and absolute values, and a handle
    wrapper.
- `app/` is ordinary Rust around the library: debug printing, and everything whose arithmetic is
  in floating point (states and commands, motion profiles, PID controllers, exponentially
  weighted averages, exponentiation, state estimation, averaging devices, the process manager).
- `tests/` runs the library on concrete values.
