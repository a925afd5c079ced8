# deadlock_mod_manager

The core of a desktop mod manager for the game Deadlock, written in Verus: the
download queue, the rules of profiles and add-on folders, the reading of logs and
crash dumps, the decisions of batch imports and updates, and the error type that the
front end receives. The functions under `src/` carry contracts that Verus proves, with
the exception of a few small trusted wrappers around the standard library and
`chrono` (string lower-casing, the alphanumeric test, `Debug` quoting, pushing a
character, and printing a UTC time), whose contracts are believed rather than proved
and are marked `#[verifier::external_body]`.

- `src/` — the verified library. `download_manager` (queue and permits),
  `downloader` and `mod_download` (one transfer, progress and file processing),
  `batch` (profile imports and batch updates), `profiles`, `paths`, `logs`,
  `crash_dumps`, `settings`, `ingest`, `commands`, `error`; `text`, `order` and
  `active_map` hold the string, ordering and keyed-list lemmas the others use;
  `laws` states the properties that span several functions.
- `tests/` — tests of the library on concrete values.
- `app/` — ordinary Rust around the library: file-system and network work, async
  tasks, and serialisable copies of the library's types.
