# mlc_reader

Tools for a queryable database of the MLC BWARM catalogue dumps.

- `src/` is the verified library: reading dump rows (`bwarm`), the TIS code
  tables (`tis`), parties and roles (`types`), the planning of catalogue
  searches and the decoding and grouping of their result rows (`mutations`),
  the bulk-load bookkeeping (`migration`) and the choice of the latest dump
  directory (`server`). Text parsing shared by these lives in `text`.
- `app/` is the command line: it talks to the database, the dump server and
  the file system, and hands plain values to the library.
- `tests/` exercise the library on concrete rows and inputs.
