# giflib

The data model and decision logic of a GIF library, written in Verus and proved against
its contracts.

- `src/ffi.rs` — the library's records (file handle, saved images, extension blocks,
  color maps, graphics control block) with their owned lists, and their well-formedness.
- `src/memory.rs` — overflow detection for array allocations and the reallocation plan.
- `src/gcb.rs` — encoding a graphics control block into extension bytes, and storing it
  in a saved image.
- `src/helpers.rs` — appending an extension block.
- `src/interlace.rs` — the interlaced row order and its proofs.
- `src/slurp.rs` — reading a whole file as a state machine driven by a record decoder,
  and dropping the last image.
- `src/state.rs`, `src/io.rs` — the encoder's state block and the choice of transfer
  channel.
- `app/` — the C interface: `repr(C)` records, raw allocation and stdio through libc, and
  the exported entry points, which convert between C records and the library's values.
