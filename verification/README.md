# functerm

Shell integration for FuncTerm, verified with Verus.

The library (`src/`) produces everything FuncTerm types into or writes for a
controlled shell, and decides how a shell session is entered:

- `shell::quote` — quoting values and paths so each shell reads them back
  literally (POSIX single quotes, Base64 literals for PowerShell and Nushell,
  double quotes for CMD).
- `shell::wrappers` — the wrapper scripts that run a dispatched command and
  publish its record, with their local variables in a random namespace.
- `shell::drivers` — per shell: the startup plan (files to write, arguments,
  environment), the invocation line of the dispatcher, keyboard input, and
  which arguments keep a shell interactive.
- `shell::bash`, `zsh`, `powershell`, `nushell`, `posix`, `generated` — the
  first way each shell was driven, kept for callers that still use it.
- `shell::shims`, `shell::executable` — the environment of a controlled shell
  and the reports of executable lookup.
- `shim` — the decisions of the shell shim: pass-through or nested session,
  the early done record, the wait for a nested shell to become ready.

Paths and environment values are handled as the bytes of their native
encoding. `src/outside.rs` holds the calls into other crates, each with the
contract it is trusted to meet.

`app/` is the process side: reading the environment, looking executables up,
writing files, starting and watching processes.
