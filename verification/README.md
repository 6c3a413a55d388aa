# wasmer

A WebAssembly module API and the readiness decisions of WASIX poll guards,
written in Verus: Verus verifies all of `src/`, and every public function
there has a contract that states its result.

## Layout

- `src/leb128.rs`, `src/reader.rs`, `src/utf8.rs`, `src/instr.rs`,
  `src/items.rs`, `src/decode.rs`: the binary format, as spec functions over
  bytes and the readers proved to compute them.
- `src/validate.rs`, `src/typecheck.rs`: the rules a decoded module must
  follow (known indices, limits, constant types, one table and one memory,
  distinct export names) and the type checking of function bodies.
- `src/module.rs`, `src/hints.rs`, `src/names.rs`: `Module` (compile,
  validate, name, type hints, imports, exports, custom sections, serialize
  and deserialize); the types of imports and exports and the module name,
  read from the module itself.
- `src/instance.rs`, `src/webassembly.rs`: import objects, instantiation
  (offered values checked to be of the store instantiated in, imports
  resolved, globals evaluated, memories and tables sized, segments
  applied) and the `spectest` host module.
- `src/poll.rs`: network and I/O error mapping, and what a poll of a file,
  pipe, socket or notification guard reports, held in a `heapless::Vec`.
- `app/lib.rs`: what is left to the operating system: files, `std::io`
  errors, asking descriptors how ready they are, and describing guards.
- `tests/`: the binary-format tests and tests of each part.
