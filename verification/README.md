# api_model

The data model of a bare-metal site controller: InfiniBand partitions and
ports, network segments, resource pools, machine identities and their
derivation from hardware fingerprints, machine validation runs, power
shelves and SPDM attestation records.

In the library under `src/`, every parser, validator and conversion
carries a contract that states its result exactly, and the laws
that tie them together (reading back what was rendered, what each
derivation depends on) are proved as public proof functions next to the
code they speak of.

- `src/text.rs` states what the string operations used by the model mean,
  and holds the calls into `std`, `hex` and `itertools` that carry them out.
- `src/digest.rs` holds the call into `sha2`.
- `src/machine/` holds machine IDs, their base32 text and their derivation.
- `app/` holds what stays in plain Rust: serde forms of the model's types,
  error types that implement `Display`, and `chrono` timestamps.

What the library does not hold, and why:

- The SLA durations per state and the clock: `state_sla` in `ib_partition`,
  `network_segment` and `power_shelf` takes the durations as a table and the
  time spent in the state as an argument; `state_sla::time_in_state` computes
  that time from two timestamps, and the caller reads the clock.
- Reading rows from the database: the `from_columns` constructors take the
  columns' values; decoding the row itself is left to the caller.
- Merging health reports of power shelves and the attestation verifier
  service client: they depend on crates that are not part of this project.

Values whose types belong to parts of the controller outside this library
are carried as text: configuration and state versions as the text of the
version, controller outcomes, BMC connection data, health report sources
and validation filters as their JSON text.
