# wizard_battle

The game rules of a small wizard battle for the Ambient engine, verified with Verus.

- `src/common.rs`: the animation clips and character states, their numbers, names and clip paths; the indices of a unit's stats.
- `src/unit.rs`: the unit table, the starting stats and skill lists, and clip paths built from a unit's template.
- `src/skill.rs`: the skill table, damage and heal rules, and which timed skill events fire in a frame.
- `src/server.rs`: a character's per-frame state machine and the running of a requested skill.
- `app/`: the engine side (entities, components, messages, animation playback, physics, input). It calls the library with plain values: times in whole milliseconds, and the signs of the movement direction.
