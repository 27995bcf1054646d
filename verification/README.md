# turso_udf

User-defined SQL functions and collations: how a function is registered, found and called, and how
each host language that supplies one sees its arguments and gives its result.

- `value`, `tag`, `error`, `flags`: what passes between the engine and a function.
- `context`, `auxdata`: one call, and what a call site keeps between rows.
- `function`, `closures`, `rust_api`: functions written in Rust.
- `turns`: what an accumulator goes through from its first row to its answer; every kind of
  aggregate says by it which accumulators it hands out.
- `registry`, `registry_laws`, `table`: the functions of a connection and of a database, and what
  holds of them as a whole.
- `capi_value`, `capi_context`, `capi_function`, `capi_handle`, `collation`: the sqlite3 C API.
- `extension`, `ext_adapter`, `dynamic`: functions of loaded extensions, and loading them.
- `java`, `javascript`, `python`: functions of the language bindings.
- `numeric`, `text`, `utf16`: the text rules the others share.

Everything under `src/` is verified with Verus. `app/` holds the edges: raw pointers, the runtimes of
the host languages, floating-point numbers and shared libraries. Floating-point values cross into
`src/` as their bits together with the text SQL renders them as.
