# bluemap_renderer

The verified core of a desktop front end (Tauri) that renders Minecraft Java
worlds with BlueMap.

- `src/` — the library, verified with Verus:
  - `text` — character-level utilities (decimal numbers, search, replace,
    lower-casing, line splitting, `u32` parsing) with exact specifications;
  - `pattern`, `clock` — the calls into `regex` and `chrono`, behind trusted
    wrappers whose results are named;
  - `version`, `progress`, `logs` — reading `java -version` output and
    BlueMap's log lines, and the bounded job log;
  - `job`, `status` — the render job's life cycle as transitions on a model,
    and the status report;
  - `world`, `config`, `environment`, `commands` — world inspection, the job
    directory's configuration files, the environment report, and the
    decisions behind the front end's commands.
- `tests/` — tests of the library on concrete values.
- `app/` — the Tauri program: commands, processes, threads, files and
  sockets, calling the library for every decision.
