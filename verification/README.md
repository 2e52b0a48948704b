# gtk_window

The windows of a GTK shell: what each event does to a window, what its handler is told, and what
the toolkit is asked to do. `src/` decides all of that and proves it; `app/` owns the toolkit's
objects, performs what was decided and reports what came of it.

- `geometry`, `input`, `keyboard`, `cursor`, `tokens`, `calls`: what events, measures and calls are.
- `surface`: the size of the surface that a window is painted on.
- `window`: the state of a window, calls of its handler, deferred operations, idle work.
- `deferred`: how deferred operations are done.
- `draw`: how a window is drawn, step by step.
- `events`: what the handler is told of the mouse, the wheel, the keys, the focus, timers and
  requests to close.
- `handle`, `builder`: the windows of an application, their handles, and how they are built.
- `laws`: what holds across a few operations.
- `history`: what holds over everything that may happen to a window, and over a whole draw.

Floating-point numbers are carried by their bit patterns; `app/measure.rs` computes with them.
