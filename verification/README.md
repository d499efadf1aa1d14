# xilem_bar

A workspace bar: nine tag buttons, a layout selector, and pills for the load of the machine, the
battery, the brightness, the volume, the theme, the time and the monitor.

- `src/` is the logic, verified with Verus. It works on plain values.
  - `bar` holds the state and how events change it.
  - `view` says what the bar shows, in which order, and what a press or a turn of the wheel asks for.
  - `shared` holds the messages, the commands, the watch on the shared buffer and the clock.
  - `gauge` colours readings, which come as the bits of single precision numbers.
  - `clock`, `theme`, `icons`, `color` and `text` are what these are made of.
- `app/` is the program around it: the widgets, the background tasks, the theme file.
- `tests/` runs the logic.

`app/` uses three crates that `Cargo.toml` does not name, and whoever builds the program adds them:
`shared_structures` and `xbar_core`, which are in no registry, and `xilem`, which the library does
without.

Trusted without proof are three contracts: those of `chrono::Local::now` and of
`chrono::NaiveDateTime::format` in `clock`, and that of `str::trim` in `text`.
