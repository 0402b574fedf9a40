# cryptfall

A terminal roguelike: dungeon floors of connected rooms, waves of skeletons, ghosts and
the Bone King, boons that change a run, and a shop of permanent upgrades paid for with the
gold of earlier runs.

## Layout

- `src/` is the library, verified with Verus.
  - `engine/`: the framebuffer (half-block pixels, blits, rectangles), tile maps, input
    with inferred key releases, the terminal frame text, frame timing records.
  - `game/dungeon/`: room templates, floor generation with its connectivity proofs,
    encounters and their waves, the dungeon world (doors, transitions, room entry).
  - `game/enemies.rs`, `game/player.rs`: the decision logic of every enemy and of the
    player as state machines over what they perceive; hits, damage and hitboxes.
  - `game/boons/`: boon definitions, weighted selection, their effects on the player.
  - `game/hud.rs`, `game/screens.rs`, `game/boon_select.rs`, `game/weapon_select.rs`:
    everything drawn as text, cards, bars and maps, each with the exact picture it
    leaves stated.
  - `game/save.rs`, `game/run_state.rs`, `game/progress.rs`, `game/controls.rs`: the
    persistent save, the run's tallies, rewards, and the menus.
  - `game/sprites/`, `game/tiles.rs`: the pixel art.
- `app/` is the program around it: the terminal, the frame loop, reading and writing the
  save file, and the floating-point motion, timers and effects that drive the library's
  decisions.
- `tests/` exercises the library from outside.
