# termusic (verified core)

The logic of the termusic terminal user interface, written in Verus and proved
against its contracts.

- `src/` is the library. The user interface state lives in `model::Model`; its
  methods decide which commands go to the server (`Model::cmds`) and which
  updates the views get (`Model::ui`), both queued in order. Views and fields
  react to key presses through pure functions from the pressed key (a
  `key_config::KeyBinding`) and the configured bindings to what happens next.
  Modules:
  - playlist: `playlist` (playlist view), `playlist_table` (table scrolling and
    selection), `search`;
  - config editor: `config_editor`, `config_ids`, `config_layout`,
    `config_data`, `focus`, `field_keys` (general page fields), `theme_keys`
    (theme page fields), `theme_style` (the edited theme's colors and
    symbols), `key_editor`, `select_states` and `input_states` (key
    binding fields), `key_config`;
  - `database`, `library`, `library_tree` and `library_roots` (music library),
    `lyric`, `global_keys` (global key listener), `startup`, `ids`.
- `tests/` runs the library on concrete values.
- `app/` is the program around it: argument handling, the process table, the
  Ctrl+C handler.
