# game_engine

The rules of a small pet-training game engine, verified with Verus:

- `bluetooth`: the Bluetooth LE device manager, its error back-off and the
  virtual test network, and the state machine that answers each request;
- `zephyr`: the Zephyr device protocol and the text form of its commands;
- `events`: the event bridge with the page, with the table of requests
  awaiting an answer and the shared settings;
- `catalog`: the critter catalog format, the composed catalog, declared
  sounds and asset URLs;
- `sprites`: sprite sheet frame positions and animation steps;
- `game`: score, level, interactions and critter selection;
- `engine`: the requests and events behind the page-facing API;
- `keyed`, `text`, `ieee`: an ordered keyed table, text primitives, and
  floating-point values carried by their bit patterns.

`app/` holds the browser edge: the Bevy plugins and systems, the
`wasm_bindgen` interface, JSON serialization and network loading.
