# pacman

The rules of a Pac-Man game on a 28×31 tile grid, written in Verus and
proved against their contracts: the maze, Pac-Man's movement from tile centre
to tile centre (with tunnel wrapping), the four ghosts' chase and flee
targets, the scatter/chase schedule, collisions, lives, scoring and level
progression. Times are whole milliseconds.

- `src/` — the verified library, one module per game system.
- `tests/` — tests of the library on concrete values.
- `app/` — the program around it: the engine systems, entity spawning,
  floating-point positions and speeds, input and the user interface.
