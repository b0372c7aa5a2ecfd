# shortwave

The device and playback logic of the Shortwave internet radio player, with
its behaviour stated in contracts and proved with Verus.

- `src/` is the verified library:
  - `text` — searching, trimming, line splitting and number parsing over
    the characters of a string, as `str` does them;
  - `dlna` — SOAP envelopes and replies, device descriptions, DIDL-Lite
    metadata, the FFmpeg proxy decisions and the DLNA sender's state;
  - `ffmpeg` — stream types, FFmpeg command lines and the proxy thread's
    session state machine;
  - `discovery`, `gcast` — SSDP replies, device descriptions, media
    renderer selection and Google Cast devices;
  - `player`, `playback` — recording decisions and the steps the player
    takes for each request and backend report;
  - `library`, `song`, `song_state`, `track_state`, `ui`, `timeout` — the
    favorites library, recorded songs, and the user interface's decisions.
  - `url_ext` — the calls into the `url` crate.
- `tests/` runs the library on concrete values.
- `app/` is a command-line program that performs the network and process
  I/O around the library: device discovery, driving a DLNA renderer, and
  the FFmpeg proxy thread.
