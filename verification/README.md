# cheese_paper

The verified core of the Cheese Paper novel editor.

- `src/` is the library, checked by Verus: user settings and the TOML
  documents they live in (`setting`, `settings`, `toml_doc`), the update
  check against the latest Codeberg release (`release`, `message`,
  `promise`, `remote_version`), the spellcheck dictionary and the words the
  user added to it (`dictionary`, `dictionaries`), small pieces of editor
  state (`focus_jumper`, `name_box`), and the text functions they share
  (`text`).
- `app/` is the program around it: reading and writing files, network
  requests, and the settings the library cannot hold (the font size).
- `tests/` runs the library with the outside crates linked.
