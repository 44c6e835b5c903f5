# riqtshaw

Generates the code that binds a Rust implementation to a Qt (C++) user interface: from a
bindings configuration (objects with properties, item properties, functions, signals and
connections) it writes a C++ header, the C++ class definitions, and a Rust interface module
with the `extern "C"` functions through which both sides meet.

The library is written in Verus. Every emitter states, in its contract, the exact text (or,
for the Rust module, the exact `codegen` items) it produces, and Verus proves it.

Layout:

- `src/configuration.rs` — the configuration types; `src/builders/` — builders for them.
- `src/entries.rs` — name-keyed tables kept in ascending order (lookups after inserts are
  proved to give back what was written).
- `src/text.rs`, `src/template.rs` — identifier case conversions, decimal numbers, and the
  filling of `{name}` / `{col_count}` templates.
- `src/cpp/` — the C++ header (`header/`), class definitions (`code/`), and shared pieces.
- `src/rust/` — the Rust interface module, built with the `codegen` crate through the trusted
  wrappers of `src/rust/cg.rs`; `c_ffi/` holds the `extern "C"` functions.
- `src/agreement.rs` — laws that the C++ and Rust halves call the C functions by the same names.
- `src/bundle_layout.rs` — the law that the Rust pointer bundle, its C++ declaration and the
  C++ constructor's initializer follow one layout, slot by slot.
- `src/validation.rs` — run-time tests of the conditions the emitters require.
- `app/` — file output: writing the generated files to disk, and the table-building macros.
