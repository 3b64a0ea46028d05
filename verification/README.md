# semaforo_devs

A traffic light modelled as a DEVS atom (red / green, a pedestrian button
that shortens red), the button-pulse generator that drives it, and the
decisions of the scheduler that couples a Co-Simulation FMU with a
Scheduled Execution FMU. The logic is verified with Verus; time is counted
in whole nanoseconds.

- `src/semaforo.rs` — the atom: its transition function, the type that runs
  it, and the laws it obeys (phase change exactly when σ is used up, the
  button's total red length, the button ignored in green or when already
  served, activations without events only letting time pass).
- `src/boton.rs` — the pulse generator: a pure function of time.
- `src/planificador.rs` — when the coupled scheduler steps, activates and
  reschedules.
- `src/presentacion.rs` — trace labels and dynamic-library file names.
- `app/` — the FMI glue (FMU models, their `UserModel` hooks) and the
  co-simulation binary that loads both FMUs with `libloading`.
