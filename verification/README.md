# yerpc C and C++ bindings

Generates C (`rpc.h`) and C++ (`rpc.hpp`) client bindings for a JSON-RPC API
from static descriptions of its TypeScript types. The library is written in
Verus: every generator states the exact text it produces, and the properties
that hold across generators are proved in `src/laws.rs`.

Layout:

- `src/ts.rs` — type descriptions: a graph of type infos that refer to each
  other by index, and a check of its well-formedness.
- `src/c/convert.rs` — from descriptions to C types and to the type
  definitions that the bindings declare (structs, string enums, internally
  tagged enums).
- `src/c/type_def.rs` — the C text of the type definitions.
- `src/c/mod.rs` — C types, container types, JSON conversion functions,
  request builders and result parsers, and the whole `rpc.h`.
- `src/cpp.rs` — the C++ wrapper types and client class of `rpc.hpp`.
- `src/procedure.rs` — procedure signatures: parameters and result types.
- `src/text.rs` — text helpers; identifier cases come from `convert_case`.
- `src/laws.rs` — properties of the generators as a whole.
- `app/lib.rs` — file output, reading `typescript_type_def` and `syn` values,
  and the procedural-macro code that drives the generators.
