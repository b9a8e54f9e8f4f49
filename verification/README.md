# ShadowPAL

Tracks non-player characters and speeds up dice rolls for Shadowrun 5E game
masters.

- `src/` is the library, written in Verus and verified: dice pools under the
  standard rules, "Push the Limit" and "Second Chance" (`dice`), characters
  with their limits, damage tracks and initiative (`character`), the store of
  active characters and templates (`store`), and the reading and writing of
  the numbers and labels that the interface exchanges with it (`text`).
- `app/` is the GTK interface and the RON database file around it.
- `tests/` runs the library on concrete values.
