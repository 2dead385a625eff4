# cargo-lbin

A manager for binaries installed with `cargo install`, with a terminal interface over one
prefix at a time. The decisions are a library that Verus verifies; what touches the machine
stands around it.

- `src/` is the library. `validate`, `version`, `text` and `decimal` read and write names,
  versions and text. `stage` classifies run directories and captured builds. `state` holds the
  model of the list and its dialogs, `job` and `batch` what runs and what became of it, `ops`
  what each operation decides once its lock is held. `app` is the session: a key, an answer or a
  reload goes in, the next state and what is to be done outside come out. `ui` says what the
  screen shows.
- `app/` does what the session asks for: the terminal, the workers, the processes and the disk.
  The services it stands on are the trait in `app/backend.rs`.
- `tests/` runs the library on concrete values.

The library trusts two calls of the `semver` crate (parsing a version, comparing two), one of
`ratatui` (counting the rows of wrapped text), `String::from_utf8_lossy` and `String::push`; what
is trusted of them is written above each.

Every step of a session has a predicate over the state before and the state after. The public
proof functions named `law_…` state what holds of all of them: that a session stays sound, that a
running job is never replaced by a key, that what was confirmed is what runs.
