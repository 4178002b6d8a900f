# headway

`headway` builds a crate the sanctioned way: every build goes through
`cloudbuild.sh` on the remote builder, never a local compiler, and the result
is a structured verdict (`built`, `no-op-fresh`, `cloudbuild-unreachable`,
`build-failed`).

- `src/` is the library, verified with Verus: path resolution, crate-name
  derivation from `Cargo.toml`, planning and building as state machines, artifact extraction, the table renderings, and the laws that
  tie them together (`src/laws.rs`).
- `app/` is the command-line program: argument parsing, the file system and
  subprocess work, and JSON output. It drives the library's state machines,
  performing each action they ask for.
- `tests/` runs the library on concrete inputs.

The default script path is `~/.local/share/cloudbuild/cloudbuild.sh`; set
`HEADWAY_CLOUDBUILD` to use another.
