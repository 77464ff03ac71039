# cargo_3ds

The decisions behind `cargo 3ds`, verified with Verus.

- `src/` is the library. Every function has a contract over the texts of its arguments;
  `src/laws.rs` proves what holds across functions and calls.
- `app/` reads the command line with clap, asks `cargo` whether a custom runner is
  configured, and performs the steps that the library decides on. The programs of the 3DS
  toolchain stand behind a trait there.
- `tests/` runs the library on concrete command lines.
