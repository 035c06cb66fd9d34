# Siege!

A real-time 2D physics artillery duel: the player's siege cannon against an
AI-defended castle.

* `src/` — the verified library (Verus): the PCG32 generator (`rng`), the
  WAV container every synthesized sound is wrapped in (`audio`), the match
  phase machine and keep check (`game`), the defender AI's zeroing
  hysteresis and correction choice (`ai`), the particle draw layering
  (`particles`), bounded histories (`history`) and the layout hash
  (`world`). Each public function carries its contract; the `lemma_*`
  proof functions state the library's laws.
* `app/` — the game itself on macroquad: window and input, floating-point
  ballistics, wind, AI aiming, particles, sound synthesis and rendering,
  calling into the library for every decision it verifies.
* `tests/` — tests of the library on concrete values.
