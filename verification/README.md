# lib — a verified type-checker core

The checking rules of a type checker for a small systems language with
resources (affine values), capabilities (interfaces), closures, actors and
async futures, written in Verus. Every function in `src/` carries a contract
stated over spec functions, and Verus proves each body against it.

Names (of types, fields, generics, modules, selectors) are numeric ids, and
diagnostics are structured values (`diag::DiagKind`).
`TypeChecker::diagnostic_message` renders their text with the program's name
table (an id without an entry shows as `#id`), `diagnostic_notes` their
notes, and `boundary_violation_message` the text of a value part that may
not cross a task boundary.

Layout of `src/`:

- `ty`, `props`, `diag`, `checker` — the type model, type properties, the
  diagnostics and the program database with the checker's state;
- `literal`, `assign`, `checks`, `binary`, `lvalue`, `place`, `consume`,
  `affine` — literal, assignment, cast, operator, place and resource-move
  rules (`place` checks place expressions whose value operands come
  checked);
- `field` — field access and the members of structs and enums;
- `meta` — storage equivalence of types (hidden state and meta markers set
  aside); `render` — the text of diagnostics;
- `generic`, `infer`, `partial`, `normalize`, `unify` — matching,
  substitution (with meta marker normalization), inference holes, and the
  unification of generic patterns while a call is inferred;
- `capability`, `capability_checks`, `opaque` — interface implementation
  search, constraint checks and opaque return types;
- `asyncty`, `boundary`, `flow`, `actor` — futures, tasks, actors and what may
  cross a task boundary;
- `selector`, `scope` — receiver selectors and their visibility across
  modules; `cabi` — checks of C ABI declarations;
- `laws` — properties that relate several of the above.

`app/` holds the floating-point literal range check, which needs floats.
