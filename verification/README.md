# nightfall

On-the-fly HLS transcoding sessions driven by ffmpeg, with the deciding logic verified
by Verus.

## Layout

- `src/` is the verified library.
  - `profiles/` builds the ffmpeg arguments of each transcoding profile (software and
    hardware H264, AAC, subtitles, raw video), decides which profiles support a request
    and in which order they are tried.
  - `profile.rs` holds the fixed quality presets.
  - `session.rs` is the state of one session: its profile chain, the chunk range ffmpeg
    works on, pausing, timeouts and restarts.
  - `manager.rs` decides what a request for a chunk or an initialisation segment does:
    serve it, wait, or restart ffmpeg at the requested chunk; and which sessions garbage
    collection pauses or reaps.
  - `progress.rs` reads ffmpeg's `-progress` report.
  - `patch/` rewrites fragmented MP4 segments so that segments of restarted ffmpeg
    processes continue each other's numbering.
  - `ffprobe.rs` holds what ffprobe reports about a file.
- `app/` is the part that talks to the operating system: it spawns and signals ffmpeg,
  reads its output, reads and writes segment files, runs ffprobe and holds the session
  manager, calling into the library for every decision.
- `tests/` exercises the library on concrete values.
