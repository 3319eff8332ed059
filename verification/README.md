# nix-snake

The rules of a terminal snake game, verified with Verus.

- `src/direction.rs`: the four unit steps.
- `src/snake.rs`: the snake (moving on a wrapping grid, turning without
  reversing, self-collision, the greedy autopilot) and the laws of its moves.
- `src/food.rs`: food placed at random cells (through `rand`).
- `src/input.rs`: what a key press does.
- `src/game.rs`: one frame of play, meals, scoring and speed.
- `src/render.rs`: what a frame shows, status line included.
- `app/main.rs`: the terminal program (through `crossterm`).
