# marshal

A Git workspace manager: a transparent wrapper for `git` that adds its own
`marshal` namespace (configuration, help, next-step advice) and a `ws`
namespace that coordinates a workspace of independent child repositories
(init, status, log, diff, clone, staging, commit, branch, switch, restore).

## Layout

- `src/` — the verified library. Every command's decisions live here with
  `requires`/`ensures` contracts proved by Verus: argument parsing, scope
  resolution, the workspace model (manifest, state declaration, staging),
  state diffs, pre-flight obstacles and their resolution, the advice rules,
  the config layers and their precedence, the porcelain status reader, and
  the exact text of every human-readable report. Laws that relate several
  operations are public proof functions named `law_*`.
- `app/` — the `marshal` binary: argument handling, file and process I/O
  (reading and writing the TOML files, running git, progress bars), JSON
  output, and forwarding plain git invocations.
- `tests/` — tests of the library's behaviour on concrete values.
