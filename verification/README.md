# daruma_storage

The persistence layer of Daruma: an append-only event log in SQLite, and the projections that
are kept beside it.

The library decides everything that can be decided without a database: which statement a
method executes, with which values, what the rows of the answer mean, what is done next, and
which error is reported. Verus proves each of its functions against a contract. The library
holds no connection and no clock:

- a method that takes one statement returns a `Query` (the SQL and the bound values);
- a method that takes several returns a step; each step says what to execute, and a further
  function takes the answer and returns the next step;
- a row is a structure of columns, each of them what the driver gave or its message; decoding
  it gives the record or the error, in the order in which the columns are looked at;
- the time and fresh identifiers are arguments.

Who read a document, and when, is held in the table `document_reads`. The statements of
`DocumentRepo::track_reads` make it; they run after the migrations and may run again.

## Layout

- `src/` — the library. `text`, `order`, `json`, `time`, `ids` and `error` are plain values;
  `query`, `rows` and `scope` connect them to statements and rows; `domain` and `events` hold
  the records and the events; each of the other modules is a repository. The laws of a
  repository stand at the end of its module, as public proof functions.
- `tests/` — the same library executed: the statements run on SQLite in memory.
- `app/` — the repositories over a connection pool: it executes what the library hands out.
  What the domain crates provide, such as the JSON of events, comes in through the trait
  `Domain`.

## What is believed without proof

What the library has from other crates stands behind small functions whose contracts are
believed: printing and reading UUIDs (`uuid`), times (`chrono`) and JSON (`serde_json`),
SHA-256 (`sha2`), hexadecimal text (`hex`), the filter of commands (`fastbloom`), and two
functions of the standard library. Each says in its documentation what is claimed.
