# ant_io

A small ecosystem on a 128 x 128 board: two ant colonies that lay and follow
scent trails between food and their nest, pillbugs that graze and flee,
spiders that hunt, and one spider steered by the player.

The library in `src/` holds the whole simulation and is verified with Verus.
The contracts state what the functions do to the board, the insects and
what they are handed, up to the random numbers they draw (for those, a
sibling function takes the draw as an argument and is exact). The laws the
simulation keeps (turning, fading scents, cells shared and left by insects
of one faction, hatching, the movement schedule, a tick of the whole game)
are proved as lemmas or as postconditions.

- `pos`, `pos/dirs`: coordinates, the four unit steps and turning.
- `map`: the board of cells (`Board`), who stands where, rock and food piles.
- `grid`: the older scent-carrying cell grid.
- `insect` and `insect/*`: the shared insect body, one turn of each kind
  (ants and their colony, pillbugs, spiders, eggs, player-driven insects).
- `ant`, `pillbug`: the first generation of the ant colony and the pillbug.
- `game`: the game state, the player's keys and one tick of the simulation.
- `rng`: the random numbers, taken from macroquad's generator.

`app/` is the program around the library: the window, the keys, the clock,
drawing, and a headless run that checks that the populations stay alive.
