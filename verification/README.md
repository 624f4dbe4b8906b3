# dev-machine

A bootstrapper for Windows developer machines: `setup` applies the
configuration kept in a config root (WinGet packages, VS Code settings and
extensions, PowerShell profile, Git defaults, WSL dotfiles), `export` writes
the machine's current configuration into a config root, and `upgrade`
upgrades WinGet packages, VS Code extensions and WSL apt packages.

## Layout

- `src/` — the library, verified with Verus.
  - `commands/` — each command as a list of steps; proofs that exactly the
    selected components run, in order, and that an export refuses to
    overwrite a non-empty root without `--force`.
  - `components/` — each component operation as a job: a state machine that
    asks for one effect at a time (`effects.rs`) and decides the next move
    from the reply.  `job.rs` proves that every move keeps the root, waits
    for the reply kind of the effect it asked for, and lowers a rank, so
    every job ends.
  - `utils/` — Windows path joining, standard locations, WSL path conversion,
    command descriptions and exit-status checks.
  - `text.rs`, `json.rs`, `error.rs` — string helpers, JSON values, errors.
- `app/` — the program: argument parsing, console output, and the effects
  themselves (processes, files, JSON parsing).
- `tests/` — tests of the library, including whole jobs driven by scripted
  replies.
