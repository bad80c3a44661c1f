# corral

Capability-based sandboxing for agent skills, with its decision logic
verified in Verus.

A skill declares in `skill.yaml` which files, hosts, services, commands and
environment variables it needs. Everything else is denied.

## Layout

- `src/` — the verified library:
  - `permissions`, `policy`: permission sets, their builder and
    intersection, and the policy engine that decides each access;
  - `manifest`, `manifest_policy`: the manifest model, its validation, its
    translation into a permission set, and the engine that decides by the
    manifest itself;
  - `sandbox`: the sandbox configuration, its builder, and the preflight
    check of commands (heredoc bodies are not scanned);
  - `handlers`, `broker`, `jsonrpc`: what each broker request needs and is
    allowed to do, routing, statistics and responses;
  - `launch`, `paths`: launch plans for `bwrap`, the preload library and
    macOS, the policy document, and the names of files and directories;
  - `reminders`: the reminders service data and the helper protocol;
  - `cli`: the permission report, approval, results, and `sandbox-call`'s
    parameters and replies;
  - `laws`: properties of the library as a whole (default deny, a network
    denial anywhere in a chain of builder calls being final, the manifest
    translation deciding alike, intersection never granting a command,
    variable or service call that either side refuses, self-intersection
    sorting and deduplicating and intersection being idempotent, handlers
    only handing back permitted operations, reminders failing closed, and
    statistics staying balanced over a whole connection);
  - `text`, `glob`, `strmap`, `scope`, `json`: strings, pattern matching
    through `glob`, ordered string maps, scopes, and JSON reads through
    `serde_json`.
- `tests/` — tests of the library.
- `app/` — the program: argument handling, files, sockets, processes and
  HTTP around the library, and `sandbox-call` when started under that name.
