# mongoac

A C-facing layer over the MongoDB Rust driver, with its decisions verified by Verus.

- `src/` is the library: error model and codes, BSON buffer framing, string views,
  read/write concerns, read preferences, client and operation options, credentials,
  server information, future results, runtime argument checks, command-event logs and
  the plans for the generated C headers. Every function there carries a contract; the
  calls into `mongodb` (and its `bson`) and `tokio` stand behind small trusted wrappers
  whose doc comments say what is believed of them.
- `app/` holds what Verus does not see: the `extern "C"` entry points, pointer
  handling, the async runtime and futures, network operations, and the header
  generator that runs `cbindgen` and writes files.
- `tests/` exercises the library through its public items.
