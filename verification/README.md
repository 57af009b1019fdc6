# euleretal

The model behind an interactive viewer that compares numerical integrators of
second-order motion, verified with Verus.

- `src/` is the verified library: the keyed store of scenarios, integrators and step
  sizes (`entity_store`), the world and its canvases and integrations, the operations
  that the controls of the user interface carry out on them (`containers`), and what the
  canvas layers compute before they draw (`layers`).
- `tests/` runs the library on concrete values.
- `app/` is the graphical front end around the library: windows, drawing, and the
  floating-point geometry of the canvases.
