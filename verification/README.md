# wave

A WebAssembly system interface (WASI) runtime whose checks are verified
with Verus. Every request a sandbox makes of the host is decided by the
library in `src/`: sandbox pointers must stay inside linear memory, sandbox
descriptors map to host descriptors through a bounded table, paths resolve
inside the sandbox's home directory, and sockets may only reach the
endpoints of the allow-list. The host calls themselves are made by `app/`.

## Layout

- `src/` — the verified library.
  - `error`, `posix`, `types`, `flags`, `bits`: error codes, host
    constants, WASI types and flag translations.
  - `fdmap`: the sandbox descriptor table.
  - `runtime`: the sandbox context, linear memory reads, writes and copies.
  - `path`: splitting paths into components, the step-by-step resolution
    of symbolic links (`PathExpander`) and the final containment check
    (`SandboxedPath`).
  - `hostcall`: the system calls the runtime may make (`HostCall`) and
    what each may touch (`call_permitted`).
  - `wasi`: each WASI call, split into the parts before and after the
    host calls it needs; every request it hands out is `call_permitted`.
  - `iov`, `argv`, `readdir`, `poll`, `writeback`, `clock`: the calls with
    buffers, argument vectors, directory entries, subscriptions, results
    written back, and clocks emulated from other host readings.
  - `seal`: a minimal context with two-way descriptor tables.
  - `sfi`: pointer translation for memory mapped at a fixed address.
  - `parser`, `codegen`: the wrapper specification language and the C
    wrapper generator.
  - `qc`, `stats`, `verifier_interface`, `frontend`: small helpers.
- `app/` — the host side: system calls through `libc`, the wasm2c and
  Lucet entry points, setup of linear memory, and the specification tool's
  command line.
- `tests/` — tests of the library on concrete values.

## Platform

The host constants in `src/posix.rs` (error numbers, `open` and `poll`
flags, clock ids and the like) are those of Linux x86-64, and every
translation in the library uses them; on other hosts, macOS among them,
those values differ. `tests/posix_consts.rs` checks them against the
host's `libc`.

## Not included

The quick-check test generator (`fuzz-gen`), which rewrites contract
attributes of Rust source into quick-check tests, is not part of this
crate: it works on `syn`/`quote` syntax trees throughout, and its
specification-parsing modules are not available. Only its
`QcAstRewriter::new` and `SpecItemType` stand in `src/qc.rs`.
