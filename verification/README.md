# virtual_gamepad

An on-screen Xbox-style gamepad for touch screens: a transparent, always-on-top
window that draws the controls and tracks which touch holds which control.

- `src/` is the library, verified with Verus: the touch tracker, the default
  control set, the styling decisions for drawing, and the pixmap that the
  overlay is drawn into together with its conversion to window pixels
  (through `tiny-skia`).
- `app/` is the program around it: the window and event loop (`winit`,
  `softbuffer`, and the Windows hit-test hook), the control geometry and hit
  testing, the press animation and the drawing itself, all of which work on
  `f32` coordinates.
- `tests/` exercises the library on concrete values.
