# extendr_api

The Rust side of R extensions, written in Verus: each function states what
it returns in its contract, and Verus proves it.

## Layout

- `src/` — the verified library.
  - `conversions/` — floats (taken by their bit patterns) to integers,
    exactly or only when whole; the coercion attempts and their message.
  - `na`, `logical` — R's missing values and tristate logicals.
  - `conditions`, `cnd`, `error` — R conditions and their class vectors,
    rlang-style messages, and the messages of every error.
  - `ownership` — the reference counts of protected R objects and the
    preservation vector that keeps them alive, with its rebuild.
  - `ralloc`, `rawalloc` — block arithmetic of the allocators on R's memory.
  - `metadata` — R wrapper code generated from exported functions and classes.
  - `matrix` — arrays in R's column-major layout.
  - `graphics` — colors, line and font encodings, device switches.
  - `functions`, `rtype`, `io`, `text` — function paths, R's type codes,
    stream formats, and string operations.
- `tests/` — tests run against the compiled library.
- `app/` — the R side: global allocators, the global ownership table,
  error reporting and function lookup through R's C interface.
