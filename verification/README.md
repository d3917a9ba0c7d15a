# station_iapetus

The game rules of the Station Iapetus shooter, written in Verus and proved against
their contracts.

- `src/` is the verified library: items and the inventory, weapon slots of a character,
  doors and elevators, the player's control scheme, controls, panels and animation signals, the rule tables of the
  animation machines of the player and the monsters, the bots' behaviour tree, surface
  materials and environment sounds, turret barrels, the choice of a target by monsters
  and turrets, journal, HUD messages and the
  scene-node naming rules a level is built from. `src/laws.rs` holds the laws that
  relate several operations.
- `tests/` runs the library on concrete values.
- `app/` reads the game's data files (RON, through serde) into the library's types.

Rendering, physics, audio playback and everything that works in floating point stay
with the engine and are not part of this crate.
