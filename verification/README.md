# ecsact

Verified core of the Rust bindings for [Ecsact](https://ecsact.dev).

`src/` is the library, checked with Verus:

- `ids` — typed identifiers and the conversions between identifier kinds;
- `types` — integer and field types, system capabilities, declaration traits;
- `meta` — decoding of what the Ecsact meta API reports;
- `events` — execution event callbacks, kept per component in registration order;
- `plugin_context` — the context a codegen plugin writes through;
- `macros` — what the `plugin_entry` and `system_impl` attributes accept and generate;
- `rust_codegen`, `support` — Rust types and paths for generated code;
- `rtb` — the runtime builder's settings, command lines, message handling and crate sources;
- `paths`, `json_input` — what the builder reads of file paths, and the JSON text it can parse;
- `sdk`, `runtime`, `text`, `example` — SDK lookup, C strings, text helpers, the example package.

`app/` performs the outside calls: the C API, proc-macro plumbing, the
`ecsact` and `ecsact_rtb` tools, and the file system.
