# smart_road

Decision logic of a four-way intersection simulator, verified with Verus.

- `src/traffic.rs`: vehicles that turn at fixed points and watch crossing traffic.
- `src/vehicule.rs`: vehicles that drive straight through and keep their distance.
- `src/utils.rs`: spawn points, leaving the screen, and one frame of turning traffic
  with its count of close calls.
- `src/road.rs`: the running simulation: key presses, the spawn cooldown, and the
  per-frame movement of the vehicles.
- `app/`: the SDL window, event loop, drawing, text rendering and the clock-based
  velocity measurement.
