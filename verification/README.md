# TPT Chassis

A memory-safe vehicle software platform: one bus API over CAN, CAN FD, LIN and
SOME/IP, ISO-TP segmentation, a UDS diagnostic server, an A/B over-the-air
update engine with rollback, an autonomy plugin interface guarded by a safety
interlock, and field telemetry.

## Layout

- `src/` is the library, written in Verus and proved: functions carry
  `requires`/`ensures` contracts where they have something to promise (the
  methods of traits that users implement state theirs over spec functions the
  implementation defines); the laws of the library (round
  trips of the wire formats, the update life cycle, staging that never
  touches the running image, the interlock's authority gate, the telemetry
  ring's retention, ISO-TP reassembly of every message that `encode_message`
  segments) are public proof functions next to the code they speak of.
- `tests/` exercises the library on concrete values.
- `app/` is the `tpt-cli` developer tool and the host-side glue: command-line
  parsing, file-backed OTA storage, the shared handles of the simulated buses,
  the Zephyr flash binding and the serde form of telemetry frames.
