# tuincremental

An idle game for the terminal: generators yield resources on every clock
tick, resources buy more generators (each one pricier than the last) and
upgrades that speed generators up or raise their yield.

- `src/` is the game's logic, with specifications and proofs:
  - `resources` — the resource catalogue, per-resource amount arrays
    (capped and floored arithmetic), and the stock of the player;
  - `generator` — generators, their price growth, the list of every
    generator of a game, and their saved forms;
  - `upgrades` — upgrades, the pending/ready split, and their saved forms;
  - `app` — the game state, what a clock tick and a selection do, which list
    has the focus, and the saved form of a whole game;
  - `event` — player commands and the keys that issue them;
  - `save_file` — the byte scrambling of the save file;
  - `text` — decimal rendering of counts.
- `app/` is the terminal program: arguments, the clock and keyboard thread,
  drawing with ratatui, and reading and writing the save file.
- `tests/` exercises the library on concrete games.

Growth coefficients are kept in hundredths (105 is +5% per purchase); prices
are grown in millionths of a unit and rounded down.
