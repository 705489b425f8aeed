# niri-sense (verified core)

niri-sense answers events of the niri compositor with vibrations on
buttplug.io devices. This crate holds its decisions, proved with Verus:

- `src/config.rs`: the configuration types, the built-in configuration and
  the reader of `sense.toml` text: the `toml` crate parses it (behind one
  trusted wrapper) into `src/toml_model.rs`, the library's model of a TOML
  document, which the verified reader then reads.
- `src/integration.rs`: which event vibrates how, the repeat cooldown,
  pausing, device selection and the test run.
- `src/sense_app.rs`: one turn of the niri event loop.
- `src/repl.rs`: the commands of the interactive prompt.
- `src/text.rs`: string helpers (comparison, trimming, `i8` reading,
  decimal writing).

`app/` is the program around it: the file system, the niri
IPC socket, the buttplug.io client and the prompt's input and output.
