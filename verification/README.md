# zombie_germs

The rules of a small Bevy game, as a library verified with Verus.

- `src/` holds the game's rules with their contracts and laws: the bitmap
  store of collision groups, the status machine, skills and the orders
  they give to microbes, input decisions, spawning decisions and the
  status text.
- `app/` holds the Bevy program around them: the ECS systems, rendering,
  physics, random numbers and all floating-point work (steering, health,
  energy, layout), which call into the library for the game's rules.
- `tests/` runs the library on concrete values.
