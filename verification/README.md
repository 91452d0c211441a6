# dukenukemrust

The game logic and asset formats of a Duke Nukem 3D engine, written in
Verus. The functions of the library carry contracts that the verifier
proves, except seven small wrappers around outside code whose contracts are
trusted rather than proved: `text::lossy_utf8`, `text::to_uppercase`,
`text::to_lowercase` and `text::string_from_chars` (the standard library's
string conversions), the private `wav::write_wav_pcm16` (the `hound` WAV
writer) and the private `midi_score::parse_midi_timing` and
`midi_score::parse_midi_tracks` (the `midly` MIDI reader). Each says in its
doc comment what it claims of the code it calls.

## Layout

- `src/` — the verified library.
  - Asset formats: `reader` (little-endian fields), `grp` (archives),
    `palette`, `art` (tiles and their animation words), `map` (sectors,
    walls, sprites), `voc`, `kwv`, `rts`, `wav`, `midi`, `midi_score` (MIDI files read
    as tracks of events and paired into notes), `font`.
  - Text and settings: `text`, `config` (the `duke3d.cfg` reader and
    writer), `con_sounds` (sound names from CON scripts), `sounds`.
  - Game flow: `campaign` (the map database and secret exits),
    `game_flow` (menus, level progress, level select, intermission),
    `menu_text`, `level_loader`, `save`, `demo`, `net`, `scoreboard`.
  - Play: `player` (weapons, pickups, inventory), `cheats`, `console`,
    `combat` (enemies and damage), `interactivity` (switches, props,
    breakables), `effectors` (moving floors and ceilings), `sprites` (skill filter, shape and role
    of each map sprite),
    `animation`, `hud`.
- `tests/` — tests of the library on concrete values.
- `app/` — a command-line tool around the library: reading archives and
  files, writing WAV and image data, and the parts that compute with real
  numbers (MIDI synthesis from the paired notes, sloped heights, light
  tints).

Times that the game measures in seconds are kept in whole milliseconds in
the library; positions, angles and other real-valued quantities belong to
the frame loop.
