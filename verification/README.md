# climate_engine

A climate simulation service whose deterministic core is verified with Verus.

- `src/` — the verified library:
  - `hash`: FNV-1a hashing of names and of float bit patterns (the seeds);
  - `rng`: the 64-bit linear congruential generator and its 16-bit noise;
  - `simulation`: resolutions, the simulated layers, grid and sample
    counts, per-layer noise, and a whole simulation run;
  - `anomaly`: anomaly kinds, the clamped anomaly count and the draws that
    place each anomaly;
  - `forecast`: the forecast horizon, hourly draws and sky classification;
  - `regions`: the catalogue of monitored regions;
  - `stats`: the request counters;
  - `ident`: random identifiers of simulation runs.
- `app/` — the HTTP service (axum): request parsing, the floating-point
  climate models, and JSON responses built on the library.
- `tests/` — tests of the library on concrete values.
