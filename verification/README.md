# bevy_shooter

A top-down arena shooter: the player walks a dark arena lit only by a
line-of-sight polygon, shoots the enemies that come in from the edges, and
loses once their bites have taken all health; R restarts after a game over.

- `src/` is the verified library, the game's rules:
  - `game`: score, player health and the game-over flag, with their invariant;
    restarting, firing, enemy bites, and what a bullet strikes.
  - `hud`: the display text, with decimal numbers written out digit by digit.
  - `input`: movement axes from the direction keys, walking and sprinting speed.
  - `level`: the walls, the floor grid coordinates, the spawn edges.
  - `mesh`: the darkness overlay's vertices and triangle fan.
  - `rng`: the 32-bit linear congruential generator.
- `app/` is the bevy program: windows, rendering, keyboard and mouse, bevy
  timers, and the floating-point geometry (movement against walls, ray casts,
  the visibility polygon), calling the library for every rule.
- `tests/` exercises the library on concrete values.
