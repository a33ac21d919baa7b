# sgm_helper

Helpers that keep console save files in step with a save-game server, for
MiSTer FPGA, the Steam Deck and Windows. The library holds the decisions
and formats, each verified with Verus against its contract; the programs
around it do the file, network and process work.

## Layout

- `src/` — the verified library.
  - `text.rs`, `num.rs`, `paths.rs`, `digest.rs`, `ini.rs`: text, numbers,
    `/`-separated paths, hashes and the `KEY="value"` configuration format.
  - `mister/`: settings and their precedence (`config.rs`), configured
    sources and their file sections (`sources.rs`, `store_law.rs`, `scan.rs`,
    `writeback.rs`), backend policy (`backend_config.rs`), the sync and restore
    state machines (`flow.rs`, `cloud_restore.rs`, `restore.rs`), save
    selection and the persisted state.
  - `steamdeck/`: save recognition and the PlayStation memory-card formats
    (`scanner.rs`), game ports (`ports.rs`), the service loop's decisions
    (`service.rs`), cron scheduling, sources and the sync machine.
  - `windows/`: the Windows helper's sync decisions and command line.
- `tests/`: tests of the library on concrete inputs.
- `app/`: the programs: argument handling, files, HTTP, folder walks and the
  loops that run the library's state machines.

Laws that span several functions are public proof functions named `law_*`,
next to the functions they speak of.
