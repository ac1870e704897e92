# magnetron_core

Verified integer and boolean logic of a magnetron (cylindrical vacuum diode)
particle simulation, with the floating-point physics around it.

- `src/` (Verus, verified):
  - `lifecycle.rs`: which particles are still in flight between cathode and
    anode and which the anode has collected (`update_particle_states`,
    `ParticleTracker`, `recorded_particles`, `count_set`), with the laws that a
    retired particle never returns, a collected one is never forgotten, and
    in-flight plus collected never exceed the swarm.
  - `grid.rs`: index logic of the cylindrical grid: cloud-in-cell cells, Dirichlet neighbours,
    quadratic-spline stencils (clamped in r, mirrored in z), control cells,
    moving-average ranges.
  - `calibration.rs`: which calibration the parameter recovery applies.
- `app/` (plain Rust): the floating-point parts (normalization, Boris and
  Higuera-Cary pushers, phase space, Poisson solver, diagnostics sweep) and the
  command line, calling the library for every decision above.
- `tests/`: tests of the library on concrete values.
