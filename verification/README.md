# tongue

`tongue vi | en | zh` switches the typing mode — the system keyboard layout and
the external Vietnamese input method together — and reads the machine back
before it reports success. Exit codes: `0` verified, `1` the machine did not
follow (`VerifyFailed`, run `tongue doctor`), `2` any other error.

## Layout

- `src/` — the library, verified with Verus: the mode table (`mode`), status
  inference and rendering (`status`), the reconcile state machine
  (`reconcile`), the configuration schema and defaults (`config`), the doctor's
  findings (`doctor`), the command-line decisions (`command`), and in
  `backend/` the HKL normalisation, the VKey shared-memory parser, the pipe
  framing, and the findings and choices of the macOS and Windows backends.
- `app/` — the binary: argument parsing, reading `config.toml`, the reconcile
  loop's reads, applies and sleeps, and everything that touches the system
  (TIS, CFPreferences, CoreGraphics, `pgrep`/`open`/`killall`, Win32, named
  pipes). It performs what the library decides.
- `tests/` — tests of the library on concrete values.
