# slint-backend-kindle

A Slint platform backend for Kindle e-readers.

- `src/` is the backend's logic, verified with Verus: the event loop as a state machine, the
  rotation of the picture and its conversion to grey levels, the sleep screen and its cache, the
  wake schedule and the page-turn buttons. Each function states what it returns or changes, and
  the `law_*` proof functions state what holds of several of them together.
- `app/` runs that logic on a device: the Slint window, `poll(2)`, image files, floating-point
  geometry, and the traits through which a program brings its drivers for panel, touch and power.
- `tests/` runs the library on concrete values.

One function of an outside crate is called from `src/` and trusted to do what its contract says:
`image::imageops::resize` with the nearest-neighbour filter, in `src/sleep.rs`.
