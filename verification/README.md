# flatus

A small apparatus for moving air: a seeded fart synthesiser with a command-line
tool, a tray-first desktop shell and web bindings.

- `src/` is the verified core (Verus): the Mulberry32 generator, the personality
  table, the desktop settings rules (sanitising, quiet hours, voice selection,
  onboarding), idle-time parsing, grain placement, mono-to-interleaved playback
  and the 16-bit mono WAV layout.
- `app/` is ordinary Rust around it: floating-point synthesis and the pressure
  state machine, audio output, the `fart` command line, the desktop shell and the
  WebAssembly bindings.
- `tests/` exercises the library on concrete values.
