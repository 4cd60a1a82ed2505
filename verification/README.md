# tune

A terminal music player that streams from file-transfer and Subsonic
(Navidrome) servers or plays a local folder, with synchronised lyrics,
playlists, a play queue and three play modes.

The player's logic is a Verus library whose functions carry contracts that
Verus proves; a thin program around it does the terminal, audio and network
work.

## Layout

- `src/` — the verified library
  - `text` — string helpers over `Seq<char>` models
  - `lyrics` — LRC parsing, original/translation pairs, lookup by position
  - `i18n` — the Chinese and English message tables and placeholders
  - `server` — song entries, URL building and encoding, adapters, the server
    pool, its routing and the merge of its lists, passwords, embedded covers
  - `player` — play modes, shuffle order, play queue, the progressive
    download buffer and its reader, the playback state machine
  - `ui` — the interface model: sorting, filtering, album grouping,
    selections, navigation, playlists
  - `store` — the configuration held in memory and its debounced writes
  - `input` — what each key does in each mode
  - `playback` — auto-next, sequential and shuffle order, starting a song
  - `dispatch` — what each event does and which outside work it leaves
  - `download` — the audio cache's file names, expiry and eviction run, and
    stream progress
  - `panel` — the texts of the playback bar and of a playlist's song view
- `tests/` — tests of the library
- `app/` — the program: event loop, terminal drawing (ratatui), audio
  output (rodio), HTTP and disk access, configuration file, logging

Outside crates called from the library sit behind small trusted wrappers
(`#[verifier::external_body]`) whose doc comments say what their contracts
claim: lofty (embedded lyrics and pictures), base64 (stored passwords), rand
(shuffling), and a few std functions.
