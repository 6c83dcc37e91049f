# dynarmic_sys

A verified core for a binding to the [Dynarmic](https://github.com/lioncash/dynarmic)
ARM dynamic recompiler.

The recompiler is foreign code. The library in `src/` never calls it: it says what to
ask of the engine for each operation of an emulator, and what the engine's answers
mean. Its contracts and laws are proved with Verus. The crate in `app/` performs the
requests through the engine's C interface, reads the environment and logs.

## Configuration

- `DYNARMIC_JIT_SIZE`: JIT cache size in MB (default 64, from 8 to 512).
- `NEXIUM_DYNARMIC_SHARED_PAGE_TABLE`: `1`, `true`, `on` or `yes` lets emulators over one
  fastmem arena share a page table.

## Laws

Public proof functions named `law_...` stand beside the code that they are about: sizes
granted to the JIT cache, page tables reused for their own arena only, one exclusive
monitor for all threads, hooks that outlive the engine's pointer to them, a sharing switch that keeps its first
answer, strings read
up to their first zero byte, and the order in which an emulator is made.

## What is trusted

Two functions of std are called with contracts that are believed, not proved:
`std::str::from_utf8` (in `src/c_string.rs`) and `String::from_utf8_lossy` (in
`src/egg.rs`). Everything else in `src/` is proved.
