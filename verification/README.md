# pong

A brick-breaking game for the Godot engine.

- `src/` is a Verus library with the game's decisions: the `Stateful`
  state-machine trait with its transition law, and the ball, paddle, wall,
  overlay and game models. Hooks and handlers do not touch the engine; they
  queue effects (`take_effects`) and state exactly which ones, in which order.
  Screen positions are integers in hundredths of a pixel.
- `app/` is the Godot extension (gdext). Each engine class holds its model,
  reports what the model needs (pointer input kinds, whether the ball moves and
  where to), runs its hooks and carries out the effects. Floating-point work
  (aiming angle, speed regulation, paddle clamping) stays there.
- `tests/` runs the models on concrete scenarios.
