# dms_config

A keyboard-driven editor for DMS configuration files (`INFO_JSON/<part>.json`),
written as a Verus-verified library with a thin terminal front end.

## Layout

- `src/domain/` — the JSON model (`JsonValue` and its mathematical form
  `Json`), text helpers, part-number and field validators, and the schema
  transformers that build and read every section of a configuration.
- `src/state/` — the form, the file browser selection and the application
  state, with the seven wizard steps.
- `src/app/` — the controller. `App::handle_key` takes one key and returns
  the outside work to do (`Action`); `rules.rs` states, for every screen and
  key, what the next state is. The outcome of outside work comes back through
  `files_listed`, `config_loaded`, `config_saved` and `query_value_rendered`.
- `src/services/` — which file a part number is saved in, and which folder
  entries are configurations, sorted by name.
- `src/ui/` — the text of every screen line, worked out from the state.
- `app/` — the terminal program: crossterm input, file and JSON I/O with
  serde_json, and drawing with ratatui.

Among the properties proved: what is saved loads back (`law_saved_config_reloads`),
each section reads back what was built, steps shown as text parse back to the
same steps, and every key keeps the controller's invariant. These laws are
about the JSON values; turning a value into file text and back is done by
serde_json in `app/`, and nothing here proves that step.
