# Soundlore

A music player whose playback core is verified with Verus.

- `src/` — the library, verified apart from a few trusted wrappers around `std` and
  `rtrb` calls: the library state (`app`), the
  playback controller and its message handling (`playback`, `playback::handler`,
  `outcome`), the audio pipeline's decisions and sink (`playback::pipeline`), the
  bookkeeping of its stages (decoder, channel converter, resampler), the output
  callback's queue draining (`playback::engine::thread`), the file and tag rules
  (`file`, `track`), the schema version checks (`database`) and the error messages
  (`error`, `log`).
- `app/` — a command-line player around the library: it scans directories, decodes
  files, resamples, opens the output device and runs the pipeline thread.
- `tests/` — tests of the library.

Samples cross the library as the bit patterns of 32-bit floats (`u32`); the
arithmetic on their values (mixing, resampling, volume) happens in `app/`.
