# pg_temporal

Temporal date and time types for PostgreSQL (`instant`, `zoneddatetime`,
`plaindate`, `plaintime`, `plaindatetime`, `plainyearmonth`,
`plainmonthday`, `duration`), with the calendar and time-zone rules of
[`temporal_rs`](https://crates.io/crates/temporal_rs).

- `src/` is the library, verified with Verus: the storage model of each
  type, its text and binary forms, field access, construction, ordering,
  arithmetic, the casts to and from PostgreSQL's own types, the settings,
  and the tables of calendar and time-zone identifiers. Calls into
  `temporal_rs` go through small trusted functions whose contracts state
  what the library relies on.
- `src/usage/` holds worked examples: SQL expressions of the documentation,
  computed with the library, each stating its result.
- `tests/` runs the library and the examples against the real `temporal_rs`.
- `app/` is the PostgreSQL extension built with `pgrx`: datum conversions,
  SQL functions, operators and casts, the settings' registration, the
  transaction clock, and the floating-point totals.
