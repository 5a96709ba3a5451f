# inno-creed

Installer and browser bridge of inno-creed, an MCP server for the Amaranth
groupware. The library holds their decisions, each with a contract proved by
Verus; the program in `app/` does the window, files, processes and registry
work that the library asks for.

- `src/wizard.rs` — the installer wizard as a state machine (`InstallerApp::step`,
  specified by `transition`), its well-formedness, and its laws.
- `src/install.rs` — where an installation puts the program and the extension,
  and the report of the installed program's `doctor`.
- `src/registry.rs` — the "Programs and Features" entry, its `reg` commands,
  and the run of commands that stops at the first refused one.
- `src/native_host.rs` — the native messaging frame (length prefix and body),
  what the host does with a message, the JSON of the reply, the credential
  cache and the host manifest, its registration with Chrome and Edge, and the
  program's command-line modes.
- `src/text.rs` — text helpers with contracts over character sequences.
- `app/` — the egui window, the native messaging host over stdin/stdout, and
  the outside work.
