# jfi

A media importer for a Jellyfin library: it reads movie files and show
directories from ingest directories, names each item by its file name,
asks TMDB what it is, and shows the catalog in a terminal interface.

- `src/` is the library, verified with Verus: file-name parsing, the catalog
  and its tree, the sorted media list and the other view state, the query
  results, the TMDB request and response steps, the `ffprobe` result model,
  the configuration, and the older `.env`-driven importer. Calls into other
  crates (regex, urlencoding, dotenv-parser, json, reqwest and serde_json
  errors) go through small trusted wrappers whose contracts are stated next
  to them.
- `app/` is the program around it: reading files and directories, HTTP,
  running `ffprobe`, the terminal interface, and the command-line modes
  (`catalog`, `tree`, `import`, `probe <file>`; no argument starts the
  interface).
- `tests/` runs the library on concrete inputs.
