# symbiote

A terminal-rendered artificial-life ecosystem whose rules are verified with
Verus.

- `src/` is the verified library: the B3/S23 axiom lattice and its pattern
  classification, the substrate tick (every cell's rule, kind, age and tribe),
  root growth and tree policy, particle deposits and grazing, density
  pressures, cluster grouping and species bookkeeping, the trophic census and
  memory counters, the step schedule, and the glyph choices of the renderer.
  Each public function states its result in its `ensures`; the laws of the
  ecosystem are public proof functions (`law_*`).
- `tests/` runs the library on concrete worlds.
- `app/` is the terminal program: floating-point particle physics, energies
  and signals of the substrate, persistence with serde, and drawing with
  ratatui and crossterm. It asks the library for every decision it makes.
