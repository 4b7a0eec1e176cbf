# api_tester

The verified core of a desktop tool for trying out HTTP APIs described by
OpenAPI documents, with identity tokens from the Google Cloud CLI and saved
value sets and test results in PostgreSQL.

- `src/` is the library, checked by Verus. It decides where `gcloud` is looked
  for and what its answers mean (`gcloud`), how identity tokens are cached
  (`token_cache`), how requests are planned and responses reported (`http`),
  which records are saved and how listings look (`postgres`), and how the
  window state is kept (`window`). Documents are handled in the library's own
  JSON model (`json`); text helpers live in `text` and `decoding`.
- `tests/` runs the library on concrete values.
- `app/` is the Tauri shell: the commands that run processes, send requests,
  talk to the database and the settings store, and hand each decision to the
  library.
