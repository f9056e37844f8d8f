# tulisp_ratatui

The logic behind a small set of Lisp bindings (`tui/*` functions for the
tulisp interpreter) that drive a terminal user interface drawn with
ratatui: reading widget arguments and style alists, naming key and mouse
events, and laying out widget areas.

- `src/` is the library, verified with Verus. Lisp values, styles, widgets
  and terminal events are plain data there; every reader has a contract
  that states its result, and `src/laws.rs` proves properties that hold
  for all inputs.
- `app/` registers the functions on a `TulispContext`, converts Lisp
  objects, terminal events and styles to and from the library's values,
  and does the terminal input and output.
- `tests/` runs the library on concrete values.
