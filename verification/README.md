# sdmx_types

Domain types for SDMX 3.0 structural metadata (concepts, codelists, data structure
definitions, dataflows, constraints) whose constructors enforce the schema's mechanical rules,
written in Verus: every constructor and accessor carries a contract over a mathematical model
of its type, and Verus proves the code against it.

Layout:

- `src/`: the verified library.
  - `ident`, `lexical`, `digits`, `version`, `version_ref`, `time_period`, `date_time`: the
    identifier grammars and the lexical value types (`xs:decimal`, `xs:integer`, versions,
    version references, time periods, durations, date-times), each a parser proved to accept
    exactly its grammar, and a renderer proved to give back the lexeme.
  - `annotation`, `localised`, `metadata`, `artefact`, `scheme`, `lookup`: the artefact
    hierarchy (identifiable, nameable, versionable, maintainable), its effective defaults and
    first-match lookups.
  - `component`, `representation`, `concept`, `codelist`, `dimension`, `attribute`, `measure`,
    `descriptor`, `data_structure`, `dataflow`, `constraint`, `fixed`, `reference`: the
    structural artefacts and the position rules their constructors check.
  - `error`: the error type and its diagnostic text.
- `tests/`: the test suite, run against the compiled library.
- `app/`: the serde wire forms (each deserialises through a validating constructor), the
  error's `Display`, and the date-time's instant view, which need derives and traits that
  cannot stand in the verified library.
