# rust_snake

A classic Snake game for the terminal. The library under `src/` holds the
game and is verified with Verus; `app/` is the terminal program around it.

- `src/snake.rs` — directions, positions, the snake and its steering queue.
- `src/board.rs` — interior and free cells of the board, steps, and the
  counting lemmas that tie a full board to the snake's length.
- `src/game.rs` — the game state machine: ticks, collisions, food and bonus
  food, scoring, pausing, resizing and restarting.
- `src/control.rs` — board size from the terminal size, key bindings, frame
  intervals and terminal resizes.
- `src/rendering.rs` — screen geometry of cells, overlays and the title screen,
  and the texts of the overlays and the status bar.
- `src/text.rs` — characters of a text and decimal digits of a number.
- `src/theme.rs` — the color palettes.
- `src/highscore.rs` — the text form of the stored high score.
- `app/` — command-line flags (`--width`, `--height`, `--theme`, `--no-bell`),
  terminal setup, the game loop, drawing with crossterm, the bell and the high
  score file.

Randomness (food and bonus placement) comes from `rand` and text widths from
`unicode-width`; the contracts state what holds of every random outcome.
