# Chicken Coop rules

The rules of Chicken Coop, a Frogger-style crossing game for one player or two
in co-op: a chicken crosses five conveyor belts of food carts and five rows of
tomato soup on celery and baguette rafts and sinking crackers, to one of five
nests in the coop wall. Fill all five to clear the round.

`src/` is the verified library. Every function in it carries a contract that
Verus proves, and the properties that span functions stand as public proof
functions next to the code they speak of.

- `board` — the row map, the nests' columns, the four terrain tile maps, row
  rewrites and clip cells for the animated rows.
- `rules` — chaos modes, the hop and its priority, home-row outcomes, the bun's
  nest, hazards, landings, clip frame selection.
- `lanes` — the lane table, lane lookup and direction, segment lengths.
- `game` — the match: lives and retirement, fills and their pay and unlocks,
  the round-clear beat, standing chickens back, game over, life icons.
- `menu` — title, mode and achievements screens.
- `poses` — the cracker's and the bun's drawn windows and frames, platform
  choice and belt hits from measured overlaps.
- `layout` — tile centres, nests and life icons in whole world pixels.

`tests/` runs the library on concrete matches.

`app/` is the game around it: the window, the sprites and their sheets, the
per-frame clocks, positions and lane scrolling (all `f32`), input, drawing and
saves. It measures what the rules need as plain values and hands them over;
every decision of the match is the library's.
