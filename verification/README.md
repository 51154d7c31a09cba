# openspace

The core of OpenSpace, a desktop AI assistant, written in Verus:
executable Rust whose behaviour is stated in contracts and proved.

- `src/` is the library. Contracts say what each function returns; properties that
  relate several functions are proof functions whose names begin with `law_`.
- `app/` is the program around it: the migration command line, the SQLite
  repositories, the settings file and its watcher, and the wire forms.
- `tests/` runs the library on concrete values.

What the library takes from other crates without proof (random and written UUIDs,
calendar arithmetic, JSON values, number parsing, joining paths, the platform's
data directory) stands in small functions marked `external_body`, each with a
comment that says what is believed of it.
