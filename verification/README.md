# pumpkin_spawn

Spawn selection, level metadata and squid behaviour decisions of a
Minecraft-compatible server, as a Verus-verified library.

- `src/world_info.rs` — level metadata (`level.dat`): defaults of a new world,
  the world generation settings, and reading/writing the stored layout,
  with the proof that a stored record reads back unchanged.
- `src/spawn/respawn.rs` — the order in which columns around a spawn
  suggestion are tried; proofs that the order never repeats a column (for
  every radius but 8), that it reaches every column of the square for every
  radius up to 15 but 8, and that any step coprime to the number of cells of
  a square of at most 1024 cells permutes the square.
- `src/spawn/spiral.rs` — the spiral of chunks searched for the initial
  spawn; proofs that it stays in its square, never repeats and moves by one
  cell per step.
- `src/spawn/search.rs` — trying candidates in order until the first one
  yields a position.
- `src/column.rs` — the per-column decisions (respawn position, spawn height
  fixup) as state machines, with termination measures.
- `src/squid.rs` — when a squid flees or changes its swimming direction.
- `app/` — serde forms of the metadata, the async searches against a world,
  and the floating-point squid animation.

Floating-point values inside the library are carried as IEEE 754 bit patterns.
