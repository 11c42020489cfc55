# pebble

A verified core for writing Pebble watch apps in Rust.

The watch's system software is reached through requests (`system::Call`):
the library decides which calls to make, with which handles, and what their
replies mean; the platform layer in `app/` performs them through the watch's C
interface.

- `src/handle.rs`, `src/boxed.rs`, `src/memory.rs`: handles on native objects,
  and values in the C heap (zero-sized values never touch the allocator; a
  failed allocation gives the value back; a box frees exactly its block).
- `src/window.rs`: windows, built step by step (each failure gives the
  handlers back), their load/appear/disappear/unload life, and their teardown.
- `src/number_window.rs`: number windows and the handlers that the system calls.
- `src/window_stack.rs`: the window stack.
- `src/graphics.rs`, `src/clicks.rs`, `src/layers.rs`: plain types.

Verify with Verus; `tests/` runs the library on concrete values.
