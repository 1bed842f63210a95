# rust_gnc

Guidance, Navigation, and Control building blocks for a Quad-X unmanned
aerial vehicle.

- `src/` is the verified library: the arming interlock and controller-reset
  rule, the failsafe command overrides, the Quad-X mixing matrix and the
  37-byte telemetry frame, each with its contract and the laws that tie them
  together.
- `app/` holds the single-precision numerics that run on top of it: unit types
  and angle normalization (with `libm`), the complementary filter, the PID
  controller, motor mixing arithmetic and the stabilization loop.
- `tests/` exercises the library on concrete values.
