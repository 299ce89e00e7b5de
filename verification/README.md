# space_shooter

The rules of a small arcade space shooter, verified with Verus.

- `src/components.rs`: the game state (score, speed level, end of run) and its
  well-formedness, the high score, and the marker types of the game's objects.
- `src/game.rs`: one frame of collisions (bullets against asteroids, the ship
  against asteroids), the steering direction and the firing rule.
- `src/score.rs`: loading and settling the high score.
- `src/text.rs`: decimal text of numbers, proved to read back.
- `src/ui.rs`: the score text, the game-over screen and the restart buttons.
- `app/`: the Bevy program around the library: rendering, input, timers,
  floating-point geometry, randomness and the save file.
