# rubiks_sim

A 3D Rubik's cube simulator. The rules of the game live in a library
verified with Verus; a Bevy program draws the cube and reads the input.

## Layout

- `src/geometry.rs`: axes, quarter turns, integer cubie positions and
  orientations.
- `src/cube.rs`: faces, move commands, the 27 cubies, layer turns and the
  solved check.
- `src/game.rs`: move queue, undo history, running turn, timer, and the
  scramble, reset, undo and keyboard actions.
- `src/scramble.rs`: the WCA-style scramble (20 turns, no face twice in a
  row, no three turns in a row on one axis) and its notation.
- `src/random.rs`: the random source (`rand`), the only trusted code.
- `src/ui.rs`, `src/text.rs`: on-screen controls, HUD status and texts.
- `src/interaction.rs`: the layer turn meant by dragging a cubie.
- `src/retro.rs`: the scanline overlay bytes.
- `src/laws.rs`: properties of the whole: undo restores the cube, four
  quarter turns are the identity, turns keep the cube well formed, timer
  behaviour.
- `app/`: the Bevy program (rendering, animation, input, camera).

The timer counts whole milliseconds; the program hands it the frame time.
