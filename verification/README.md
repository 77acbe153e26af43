# rhino-cli

A JSON-RPC 2.0 command-line client for Rhino plugins, with its logic written
in Verus and proved against its contracts.

- `src/` is the verified library: the protocol model (`protocol.rs`), the
  JSON value model (`json.rs`), reading JSON text into it (`json_text.rs`)
  and writing it back as compact text (`json_write.rs`), errors and exit
  codes (`error.rs`), the client's request numbering and reply rules
  (`client.rs`), what a failed command prints (`report.rs`), text helpers (`text.rs`), and every command's
  decisions under `commands/`, including the macOS, Windows/WSL and
  unsupported automation backends under `commands/rhino/platform/`.
- `app/` is the program around it: argument parsing, sockets, files, the
  environment, clocks and child processes. It hands their outcomes to the
  library and prints what the library returns.
- `tests/` exercises the library on concrete values.
