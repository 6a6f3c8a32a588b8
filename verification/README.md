# cce-gallery

The widget gallery and compositor test bench of the `cce` desktop environment: one
`cce-ui` client that shows every toolkit widget in each of its styles, and doubles as
the binary behind a set of test windows of different shell types (`--child --type ..`).

The decisions the program makes are a Verus-verified library under `src/`:

- `child_kind`: the child-window kinds, their `--type` spellings, titles, app_ids,
  default sizes and layer-shell settings;
- `launch`: how a command line is read, and the command line an editor window is
  started with;
- `window`: window title, app_id, shell hooks, the widgets a child window is built
  from, the layout and style dropdowns;
- `slots`: the numbered roster of widget slots, which are shown, which are exhibits,
  and which widget a slot number reaches;
- `dispatch`: which slots an input event is offered to, in which order, and how a
  press moves the keyboard focus;
- `ramp_file` and `ramp_laws`: the bevel ramp file the Ramp editor writes and reads,
  with the proof that reading a written file gives back what was written.

`app/` is the toolkit program around the library: the widgets, the floating-point
geometry and painting, the event loop, the file and process I/O.
