# xero_toolkit

The XeroLinux toolkit: a GTK application that installs and configures
software on XeroLinux (drivers, gaming tools, containers, kernels, CPU
schedulers, desktop customization) by running command sequences with
progress reporting.

The crate is written in Verus. `src/` is the verified library: every decision
the toolkit makes is a function with a `requires`/`ensures` contract proved by
Verus, stated over character sequences and other mathematical values.

- `command`, `task_runner`, `pkexec`: commands, their builder, how each kind
  of command is executed, and the step-by-step run of a sequence
  (launch, advance, fail, cancel).
- `terminal`, `drivers`: sequences run in an interactive terminal, the
  confirmation answer, and hardware driver installations.
- `recipes`, `servicing`, `kernels`, `scx`, `gamescope`: the command
  sequences that depend on the user's choices or on the machine, the parsing
  of `pacman`, `scxctl` and `systemd-detect-virt` output, and the Gamescope
  launch option generator.
- `aur`, `package`, `daemon`, `autostart`, `system_check`, `navigation`,
  `selection`, `download`, `config`: helper selection, package queries,
  the authentication daemon's start-up wait, release files, lazy page loading,
  selection dialogs and seasonal-effect settings.
- `text`, `ordering`: string operations with exact specifications, and the
  lexicographic order used to sort kernel names.

Laws that relate several calls are public proof functions named `law_*`.

`app/` is the GTK program around the library: windows, processes, files and
environment. It hands the library plain values and acts on what it returns.
`tests/` exercises the library on concrete values.
