# vango

A build tool for C and C++ projects, in the spirit of cargo: a `Vango.toml`
manifest next to a `src` directory is enough to build, run and test a project.

## Layout

- `src/` is the verified library. Every public function carries a contract
  over mathematical models (`Seq`, `Map`, views of the data types), and the
  laws of the library are public proof functions (named `law_*`).
  - `cli`, `input`: the command line grammar, parsed into actions.
  - `config`: manifests (packages and prebuilt libraries), their profiles and
    how sections are layered onto the built in `debug` and `release` profiles.
  - `deps`: what dependencies add to a build.
  - `exec`: the command lines of each toolchain, incremental build decisions,
    precompiled headers, and how tool output is classified.
  - `action`: output locations, defines, the settings cache, project
    creation, help text and clangd flags.
  - `repr`: the JSON description format.
  - `text`, `paths`: string and path helpers with exact specifications.
- `app/` is the program around the library: reading files, running the tools,
  printing, and the serde forms of the manifests.
- `tests/` runs the library on concrete values.
