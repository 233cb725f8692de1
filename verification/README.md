# NTP time types, verified

Fixed-point time arithmetic for NTP, written in Verus.

- `src/arith.rs`: saturating and truncating `i64` arithmetic, two's-complement
  wrapping, big-endian byte encodings, and the lemmas about them.
- `src/duration.rs`: `NtpDuration`, a signed 32.32 fixed-point interval with
  saturating addition and subtraction, and its conversions.
- `src/scaling.rs`: multiplication (saturating) and division (toward zero) of
  durations by integer scalars.
- `src/timestamp.rs`: `NtpTimestamp`, whose arithmetic rolls over at era
  boundaries.
- `src/instant.rs`: `NtpInstant`, a monotonic clock reading.
- `src/poll.rs`: `PollInterval` and `FrequencyTolerance`.
- `src/std_time.rs`: the trusted contracts of the `std::time` functions used.
- `src/laws.rs`: properties that relate the operations to one another.
- `app/lib.rs`: the floating-point conversions, which stay unverified.
