# archivefs-cli

The command-line front end of an archive library manager for retro game
collections: it scans source folders, mounts archives, keeps a catalogue,
audits DAT files, repairs sets, and previews or installs cheats and patches
for Dolphin, PCSX2 and RetroArch.

## Layout

- `src/` is the library, verified with Verus. It holds what the commands
  decide: command-line parsing for every sub-command, the install guards and
  selections, the platform-detection audit tally, and every report text the
  program prints, each with a contract over spec functions.
- `tests/` runs the library on concrete inputs.
- `app/` is the program around the library: `main`, the dispatch of
  commands, and the calls into the archive core that read and write the file
  system, mount archives, and serialise JSON. It hands plain values to the
  library and prints what comes back.

## Building and checking

Run Verus over `src/lib.rs`; the tests build against the library with the
outside crates named in `Cargo.toml`.
