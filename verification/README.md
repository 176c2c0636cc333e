# sgfx-core

Backend-neutral graphics resources and commands, verified with Verus.

- `src/ir`: resource tables, descriptors, command encoders and owned recordings.
  A finished command buffer names only resources of its own table, nests its
  passes and stays within its limits (`recording`). Recordings stay valid as a
  table grows (`growth`). Barriers order storage writes and the copies that
  follow them (`ordering`).
- `src/ir_execute`: lowering of a command buffer to a plan of uploads, copies and
  decoded passes. `properties` states what holds of every plan.
- `src/memory`: requests for room. Functions that grow lists take or hold a `Memory`
  and state their outcome for every answer.
- `src/virgl`: command streams for a Virgl device. `streams` states that every
  stream is a sequence of whole commands.
- `src/wgpu_backend`: shader generation, object caches and submission plans for
  WGPU. `properties` states what holds of caches and plans.
- `src/backend`: contracts of execution backends.
- `src/driver`: plain values between lowering and devices.
- `app`: the backends themselves, in ordinary Rust: WGPU calls and a Virgl
  transport.

Floating-point values are handled as IEEE 754 bit patterns (`u32`). Rounding of
exact ratios to single precision is defined and proved in `src/ir/rounding.rs`.
