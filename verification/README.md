# vvconvert

The decision logic of VVConvert, a desktop H.266/VVC video converter, as a
library verified with Verus, and the desktop shell around it.

- `src/text.rs`: decimal rendering and parsing, first-line extraction, and
  the small string operations the rest is built from.
- `src/tools.rs`: the FFmpeg side: the executable search (a step function
  that asks one question at a time), the `ffprobe` and `ffmpeg -version`
  runs, the download checks, the unpacking steps and the reports.
- `src/encoding.rs`: the conversion: decoder arguments, encoder settings,
  buffer sizes, which frames are encoded, failure reports.
- `src/shell.rs`: the logger, greeting, menu bar, menu commands, update
  notices and focus rule.
- `src/outside.rs`: the calls into serde_json, the URL parser and the
  standard library's UTF-8 decoding, with the contracts they are trusted for.
- `app/`: the Tauri application: processes, network, files, windows and the
  VVenC encoder library, driven by the functions above.
