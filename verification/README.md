# erratic

An error type with a typed state, an optional context and an optional source, with its
behaviour stated in `requires`/`ensures` contracts and proved by Verus.

`Error<S>` is stored in the cheapest of three layouts: a string literal alone needs no
allocation, a state alone whose type fits beside a metadata byte in one word is stored inline,
and anything else lives in an allocated body with a state store, a source and a context. Its
message is `<state>": "<context>`, `<context>` or `<state>`; an error with neither a state nor
a context shows the message of its source. `{:#}` adds the chain of sources, each after
`"\n  -> "`, leaving out a message equal to the one before it. `{:?}` prints the chain and the
backtrace, if any (`{:-?}` leaves the backtrace out), and `{:#?}` prints the struct form
`Error { state: .., context: "..", source: .., backtrace: .. }` with the parts the error has.

## Layout

- `src/lib.rs` — `Error<S>` and its invariant, `StateExt`.
- `src/raw.rs` — the storage (`RawError`, `ErasedRawError`, `RawVacant`), sources
  (`SourceNode`, `ForeignError`) and the spec functions that define messages and chains.
- `src/raw/align4.rs` — two-bit metadata in aligned addresses; inline storage of small values.
- `src/raw/source.rs` — the containers a source can come in (`Source`, `NoSource`,
  `BoxedSource`, `IndirectSource`, `WithBacktraceSource`).
- `src/raw/state.rs` — the state store of a body and what it accepts.
- `src/state.rs` — the `State` trait, `Stateless`, `Vacant`.
- `src/builder.rs` — `Builder`, `ErrorExt`, `BuilderExt`, `DeriveExt`.
- `src/context.rs` — contexts (`Context`, `Value`, `Mkctx`).
- `src/render.rs` — messages, chains and their rendering with repeats left out.
- `src/pretty.rs` — the struct-like debug form.
- `src/fmt.rs` — custom formatting: `Formatter` and the state type `FormatWith`.
- `src/macros.rs` — checked conditions (`mksure`) and their messages.
- `src/laws.rs` — properties that relate several operations.
- `src/backtrace.rs` — backtraces kept beside sources, the search for one along a chain,
  and the decisions of capture (the default build captures none).
- `src/rtti.rs`, `src/decimal.rs`, `src/test_fixtures.rs`.
- `app/lib.rs` — `Display`, `Debug` and `std::error::Error` for the library's errors, standard
  errors turned into foreign errors, and backtrace capture with its process-wide flag.

Types are identified by `u64` tags: a state type gives its tag through `State`, a context value
and a foreign error carry theirs, and a downcast takes the tag it looks for.
