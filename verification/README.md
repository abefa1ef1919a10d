# tauri_release

A release orchestrator for Tauri applications. It builds desktop and mobile
artifacts in disposable Podman/Docker sessions or on a matching host, and
keeps only publishable files in `dist/<version>/`, with SHA-256 checksums and
a release manifest.

## Layout

- `src/` — the verified library (Verus). It holds every decision of a
  release:
  - `cli`, `config`, `project`, `context`: the command line, the
    configuration with its defaults, the project metadata, and the merged
    build context (command-line overrides, output and cache directories,
    selected platforms);
  - `host`, `container`, `platforms/*`: the build strategy of each platform,
    the host command or the container invocation (arguments, mounts,
    environment, wrapped script) that builds it;
  - `artifacts`, `checksums`, `release`: which files are release artifacts,
    where they are copied (never over another file), the sorted release
    manifest, checksum files, and the order of the release stages;
  - `util`, `text`, `env_map`, `error`: shell quoting, path strings, text
    operations, the name-ordered environment map, and the error messages.
- `app/` — the program: argument parsing (clap), reading and writing files
  (serde, toml, serde_json, walkdir), running processes, Ctrl-C cleanup.
- `tests/` — tests of the library on concrete values.

Paths are handled as strings joined as `PathBuf::join` joins them on the
host: with `/` on POSIX hosts, with `\` on Windows hosts, where a prefixed
path (`C:`, `C:\x`, `\\server\share`) replaces the base and a rooted one
(`\x`) keeps only the base's prefix; shell words are quoted for the host's shell: single quotes for
POSIX shells, double quotes for `cmd.exe` on Windows hosts. Container builds
collect artifacts with a `find` filter built from `[artifacts]`, so they keep
the same file types as host builds.
