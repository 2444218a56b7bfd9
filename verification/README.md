# exsul

Verified core of the Exsul entrepreneur launch system (ELS).

- `src/` — the library, written in Verus and verified:
  - `content`, `discovery`: the Georgian discovery interview, next question and progress;
  - `answers`: reading answers as a key → text map (last non-blank answer wins);
  - `knowledge`: tax classification by turnover/headcount, registration roadmap,
    number extraction from free text;
  - `profiling`: deterministic business profile draft, report and narrative prompt;
  - `gateway`: session view, not-found handling, answer validation;
  - `script`: splitting a SQL script into top-level statements;
  - `migrations`: statement filtering, "already applied" errors, failure accounting;
  - `runner`: the migration runner's decisions as step functions (check, apply,
    record, go on after a failure, report the failure count) and the
    whole-script / statement-by-statement fallback;
  - `errors`, `types`, `startup`, `text`: shared types, errors and text helpers.
- `app/` — plain Rust around the library: serde copies of the types, SQLite
  persistence (rusqlite), the gateway/command layer, the loop that carries out
  the migration runner's actions, and the panic hook.
- `tests/` — tests of the library.
