# operit

The command, model and code-generation logic of the Operit runtime, written
in Verus. Every function in `src/` carries a contract; Verus proves all of
them except the few `#[verifier::external_body]` wrappers around outside
calls (`sha2` digests, `url` parsing, `serde_json` reading, `syn` parsing
with the readers that turn its syntax tree into plain values, and three
`std` string functions), whose contracts are trusted and say only what those
libraries document.

- `src/commands/` — the command-line commands (`market`, `package`, `model`,
  `local-models`, `storage`, `chat`, `link`): argument grammars, decisions,
  and the exact text each one prints.
- `src/codegen/` — the Core proxy dispatch generator: the scanned object
  model, how methods are carried by the link, route declarations, and the
  rendered dispatch code.
- `src/rust_source.rs` — a Rust source file read into plain parts (items,
  fields, attributes, `impl` and trait functions) through `syn`.
- `src/declarations.rs`, `src/declaration_catalog.rs`,
  `src/declaration_module.rs`, `src/declaration_scope.rs` — the TypeScript
  declarations of the plugin SDK: where each Rust item is declared and as
  what, the catalog of every SDK type, how a module's declarations are
  grouped, what each namespace lists and in which order, how named types
  are referred to and imported, the module header, and the check of
  committed declarations against generated ones.
- `src/model.rs`, `src/core_stream.rs` — chat and message records, functional
  model roles, stream descriptors.
- `src/remote.rs`, `src/discovery.rs`, `src/space_sync.rs`,
  `src/link_access.rs` — paired devices, discovered spaces, the device-space
  topology and the synchronization state machines.
- `src/local_model_*.rs`, `src/sherpa_output.rs` — local model storage
  layout, registry errors and the Sherpa ONNX engine arguments and output.
- `src/oauth_callback.rs` — the loopback destination of browser sign-in.
- `src/text.rs`, `src/num.rs`, `src/order.rs`, `src/path.rs`,
  `src/output.rs` — the string, number and ordering models the contracts are
  written in.

`app/` is the command-line front end: it reads arguments and files, talks to
sockets and the clock, and hands plain values to the library. `tests/` runs
the library on concrete values.
