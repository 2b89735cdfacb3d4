# cistern

A storage layer for AI applications: a key-value engine over sled and a
vector engine over LanceDB behind one database handle.

- `src/` is the verified library (Verus). It holds the key-value tables of
  byte keys and byte values with their map model and laws, the sled
  database handles, the `Backend` trait and the generic `Cistern` handle,
  the id arithmetic (time and counter ids, time and salt record ids), and
  the rules of the vector tables: table directory names, delete filters,
  harmless index failures, batch layout and column checks.
- `app/` is the asynchronous face: serde-typed tables whose operations run
  on tokio's blocking pool, the process-wide id counter, and the LanceDB
  and Arrow I/O of the vector tables.
- `tests/` exercises the library on concrete values.

The vector tables in `app/rag.rs` and `app/context.rs` call LanceDB and the
`futures` stream traits. Cargo.toml does not name `lancedb` (its dependency
tree is several hundred packages) nor `futures`; building those two modules
needs both added to the dependencies.
