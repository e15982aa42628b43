# alexandrie

An alternative crate registry for Cargo.

- `src/` is the registry's logic, verified with Verus: the layout and the records of the
  crate index (selecting, checking, adding, yanking and un-yanking records), semantic
  versions as `semver` orders them, the reading of publication requests, the checksums
  and password hashes, accounts and owners, search windows, pagination and dates of the
  web pages, and the git credential and merge decisions. Each public function states in
  its contract what it returns; the properties that relate several functions are proof
  functions whose names start with `law_`.
- `tests/` exercises the library on concrete values.
- `app/` is the web server around the library: configuration, database, files, git,
  HTTP routes and HTML pages.
