# arrow_entity

Arrows of a block-world game server: flight, sticking, striking, wobble, ageing, pickup and saved
games, written in Verus.

- `src/arrow.rs`: the arrow and the single changes that happen to it.
- `src/pickup.rs`: who may take an arrow.
- `src/tick.rs`, `src/strike.rs`, `src/landing.rs`, `src/touch.rs`: a tick, a hit on an entity, a
  hit on a block and the touch of a player, each as a conversation with the world. A call takes a
  phase and an answer, changes the arrow, and names the next phase and what the world is to do.
- `src/tick_laws.rs`, `src/strike_laws.rs`: what holds of whole ticks and strikes.
- `src/nbt.rs`, `src/save.rs`: named tags, and how an arrow is saved and loaded.
- `app/`: the engine side, which owns positions, velocities, worlds and files.

Floating-point numbers do not occur in `src/`: the damage multiplier is kept as its bit pattern,
and velocities stay with the engine. The one thing that is trusted without proof is the call of
`rand::random` behind the critical-hit roll, of whose result nothing is claimed.
