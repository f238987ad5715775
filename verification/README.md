# nanuak_dictionary

A tool for a workspace of numbered versions of a dictionary program
(`v1`, `v2-dictionary`, ...): it finds the workspace, works out the next
version number, asks for the new version's name, copies a template version,
registers the new crate in the workspace manifest, renames its package and
renames it in its `main.rs`.

The decisions are a library verified with Verus (`src/`):

- `versions`: version-name rules, version numbers, the sorted list of
  versions, finding the workspace root;
- `text`, `paths`, `lexical`: text replacement, path joining, lexicographic
  order and sorting;
- `cargo_toml`: the manifest model and its edits;
- `effects`: the commands the state machines give and the events they take;
- `create_new_version_state`, `create_new_version`, `define_word_state`,
  `state`: the state machines, each a step function from state and event to
  the next state and command, with laws on what every step keeps.

`app/` is the program around it: it carries out the commands against the
terminal and the file system, reads and writes TOML, and runs the loops.
