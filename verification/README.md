# mdx

The shell-completion installer and self-updater of the `mdx` command-line tool,
as a Verus-verified library (`src/`) and a thin driver (`app/`).

- `src/text.rs`: whitespace, substring search and concatenation on character sequences.
- `src/paths.rs`: Unix path joining, the last path component, the bash start-up file.
- `src/completions.rs`: shell names, `$SHELL` detection, where each shell's completions
  go, and the start-up file lines to add (the completion scripts come from `clap_complete`).
- `src/update.rs`: reading `tag_name` from the release description, target triples,
  download addresses.
- `src/updater.rs`: the update as a state machine; `Updater::step` decides the next
  action from the report on the last one, with proofs that it terminates, cleans up its
  temporary directory, rolls back a failed swap and reports success only when earned.
- `app/lib.rs`: the environment, files, network and processes; it performs the actions.
