# air

The decisions of a desktop application around the mihomo core, verified with Verus.

- `src/system_proxy/` reads, takes over and puts back the proxies of macOS network services by way
  of the `networksetup` program.
- `src/core_service/` holds the command lines, directories and wide texts of the core's service.
- `src/config.rs`, `src/subscriptions.rs` and `src/settings.rs` hold what is read in configurations,
  subscriptions and settings.
- `src/services/` holds the operations: building, testing and writing the core's configuration,
  starting the core, keeping the proxies in step, storing configurations and scripts, and stopping
  the core before an exit.
- `src/snapshot_store.rs` says what the file with the original proxies tells.
- `src/paths.rs` holds paths as the bytes of the platform, and the application's directories.
- `src/host.rs`, `src/text.rs`, `src/utf8.rs`, `src/number.rs` and `src/errors.rs` are what the rest
  is written in.

The library does no input or output. An operation that needs some returns a step; the caller
performs it and hands the reply back. Every such operation has a specification of its steps, and the
public proof functions whose names begin with `law_` state what holds of whole runs.

`app/` performs the steps: it runs programs, reads and writes files, and talks to the stores and the
core through the `Backend` trait.
