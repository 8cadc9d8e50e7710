# speng_hunter

A hunter for rare planets in SpaceEngine 0.990.45.1945: it jumps to random
galaxies, runs the star browser with the user's filters, inspects the systems
it finds and logs each planet, tagging the rare ones (high-ESI Earth-likes,
1M1R worlds, A|B flips, ...).

- `src/` is the verified library (Verus): the rare-find rules and the label
  written for a planet, volatiles class names, log file names, parsing of
  SpaceEngine's log for the selected body's code, window-title matching,
  galaxy code generation and filtering, click coordinates and message
  packing, and the star-browser polling rule.
- `app/` is the Windows program around it: process and window lookup,
  memory reads and writes, scripts, clicks, sleeping, floating-point
  measures (ESI, density, gravity) and writing the log.
- `tests/` exercises the library on concrete values.
