# OpenRustMap

A world map in the terminal, drawn in Braille patterns from vector tiles, with a popup that finds
and plays radio stations.

- `src/` is the library. It holds the rules, layouts, stores and state machines, with contracts
  that Verus proves. It does no input or output: it tells its host what to do, and is told what
  came of it.
- `app/` is the program around it: the terminal, files, requests, sound, what is calculated in
  floating point, and the reading of vector tiles, whose reader panics on some bytes.
- `tests/` runs the library on examples.

| Module | What it holds |
| --- | --- |
| `text` | decimal numbers, white space, percent-encoding |
| `geometry`, `layout` | rectangles, and where everything stands on the screen |
| `input` | keys, mouse, and what they ask of the map |
| `draw` | drawing instructions, frames and borders |
| `braille`, `line`, `tiles`, `frame` | pixels in Braille cells, lines, the tiles of a view, and the drawing of a frame |
| `paths`, `config`, `tile_source` | the tile store in memory, on disk and on its way |
| `plugin`, `popup_model`, `popup` | stations, and the radio popup as a state machine |
| `stream`, `player`, `ring` | the stream buffer, the player, and its sample ring |
| `settings`, `app_model`, `application` | the settings, and the application as a state machine |
| `terminal_restore` | leaving the terminal as it was |

`popup_model` and `app_model` say what every input does, as functions from state to state;
`popup` and `application` are the code that is proved to do it. Functions named `law_..` state
what holds across several operations.
