# anime_game_core

Core logic of a launcher for several anime games: versions and how they are
read from game files, the difference between an installed game (or voice
package) and what the game API offers, voice package folders, integrity
files, telemetry checks and the linux patches.

The library under `src/` is written in Verus: each public function states its
result in `requires` / `ensures` over mathematical models (`Seq`, `int`,
views of the library's types), and Verus proves the code against them.
Network access, the file system, processes and floating point live in
`app/`, which hands the library plain values and performs what it decides.

Layout:

- `src/version.rs`, `src/version_scan.rs`: versions, their text, and the
  searches for a version in the bytes or strings of a game data file.
- `src/paths.rs`, `src/text.rs`, `src/strings.rs`: paths, lines and UTF-8
  byte offsets, decimal numbers, as std computes them; `src/file_strings.rs`
  lists the printable runs of a binary file.
- `src/games/`: the games of the launcher. `package_diff.rs` finds the
  difference for APIs that list segmented archives, `branch_diff.rs` for APIs
  that describe branches and manifests; each game's folder holds its
  editions, API schemas, game, voice packages and repairer.
- `src/genshin/`, `src/honkai/`, `src/installer/`: the older API and its
  archive differences, with the linux patch of the older layout.
- `src/repairer.rs`, `src/telemetry.rs`, `src/digest.rs`: integrity files,
  telemetry server checks, and the MD5 digest behind patch checks.
- `tests/`: tests of the library on concrete values.
- `app/`: requests, file operations, the file-by-file downloads of PGR and
  Wuwa, patch scripts and size predictions. The games whose API describes
  branches and manifests are installed through the `sophon` library, which
  this project does not build on: for them the library decides what to
  fetch and what to install (`branch_diff.rs`, `install_action`), but no
  code here downloads or patches their files.

Laws that span several functions are public proof functions named
`lemma_*`, such as `lemma_version_text_roundtrip`,
`lemma_temp_folder_read_after_write` and `lemma_folder_reads_back`.
