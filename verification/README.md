# messrust

A maintainability checker for Rust sources: it reads source files, runs
PHPMD-style rules over what it learns of their functions and types, and
reports the findings as text, XML, HTML, JSON, Checkstyle, SARIF, GitHub or
GitLab output. Exit code `0` means clean, `2` findings, `1` a failure.

## Layout

- `src/` is the library, verified with Verus. Each public function states
  what it returns; the laws that relate several functions are public proof
  functions.
  - `text`, `report`, `render`: text helpers, the report and its formats.
  - `suppressions`: `messrust-disable` directives and what they cover.
  - `ruleset`: ruleset documents, references, overrides and name filters.
  - `cli`: the command line.
  - `discover`: which files to read, in which order.
  - `metrics`: which lines hold code.
  - `nesting`: tokenizing a source, the token nesting guard, and parsing.
  - `analyze`: the file model, the complexity measures, module paths, the
    type table, empty catch blocks, and the rules themselves
    (`analyze::rules`).
  - `samples`: small programs of the kind the rules read.
- `app/` is the program around the library: argument and file handling,
  the syntax tree walk that fills the file model, and the serialised
  report documents.
- `tests/` runs the library on concrete inputs.
