# update_cdda

Updates a Cataclysm: DDA installation to the newest experimental build.

- `src/` is the library, verified with Verus: the archive names per platform
  (`updater::config`, and the older naming in `utils`), the download address
  and accelerator handling, the judgement of a finished download, which
  entries of the game directory an update keeps, how downloaded entries are
  installed (`updater`, `updater::utils`), how command line and configuration
  file combine (`settings`), how paths are joined and compared on Unix
  and Windows (`paths`), string helpers with exact specifications
  (`text`), and the build-number lookups done with the `regex` crate
  (`pattern`, `updater::current_game`, `updater::lastest_build`).
- `app/` is the program: command line, configuration file, network transfers
  and file system work, calling the library for every decision.
- `tests/` runs the library on concrete values.
