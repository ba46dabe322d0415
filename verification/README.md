# direct_decl

Reads the declarations of a Hack source file while the file is being parsed,
without building its syntax tree: classes, functions, type aliases, constants,
records and enums, with their types, attributes and positions. The library is
verified with Verus.

The parser calls `make_..` functions on one state,
`parser::DirectDeclSmartConstructors`, from the innermost piece of syntax
outwards. Each returns a `node::Node`, and finished declarations are added to
`decls::Decls`. All data lives in one `bumpalo` arena.

## Layout

- `src/` is the library. `arena`, `text`, `encoding`, `token`, `source`,
  `str_map` and `const_refs` are the ground it stands on; `syntax`, `types` and
  `decls` are the data it produces; `namespace`, `classish`, `node` and `parser`
  hold the state; the other modules read one kind of syntax each. `facts` reads
  the options of the extraction of facts.
- Beside each function stands a spec function that says what it returns. Proof
  functions named `law_..` state what holds across functions: that leaving a
  namespace undoes entering it, that `yield` is never lost on the way to the
  function around it, that spelling out polymorphic contexts keeps the rest of a
  signature.
- What only the toolchain around the library knows (the full name of an
  identifier, the value of a quoted literal) is asked of a function that the
  state holds; see `src/host.rs`.
- `tests/` runs the library on small inputs.
- `app/` ties it to the toolchain: the traits of the parser, the answers to the
  questions above, the declarations in the toolchain's own types, and the entry
  points for OCaml.
