# takit

The verified core of Takit, a small video and audio downloader built around
yt-dlp and ffmpeg.

`src/` is a Verus library. It decides how a download request becomes a yt-dlp
command line, how yt-dlp's output updates a job and how a job ends, which copy
of each tool is used and what to download when one is missing, which files to
keep from a downloaded ffmpeg archive, and how settings are kept within their
ranges. Every function there carries a contract; the laws the library keeps
that involve several calls are stated as public proof functions, and those
about one call in that function's contract. Verus proves all of
them, except the few `external_body` wrappers around `std`, `zip`, `lzma-rs`,
`tar` and `serde_json`, whose contracts state what those crates do and are
trusted.

- `text` — strings as character sequences: trimming, searching, splitting,
  lines, decimal numbers.
- `settings` — user preferences, their defaults and normalization.
- `platform` — the build target, executable names and download sources.
- `tools` — tool resolution order, status reporting, install plans, and the
  archive entries that are ffmpeg executables.
- `archive` — extraction from zip and tar.xz archives, over the `zip`,
  `lzma-rs` and `tar` crates.
- `download` — yt-dlp arguments, link checks, job ids, and what probing a link
  reports (over `serde_json`).
- `job` — a job's state, output-line handling, and its end.
- `setup` — first-run progress events and download byte counts.

`app/` is the Tauri application around it: windows, tray, IPC commands, and
all file, process and network work. `tests/` exercises the library on
concrete values.
