# ryusei_gpui

The verified core of the Ryusei Go desktop shell, written in Verus.

`src/` holds the library, every function of it proved against its contract:

- `text`, `text_input`: the native single-line text input (character-wise
  editing, selection, bounded undo/redo history, IME composition and the
  UTF-16 ranges platform input bridges use).
- `board`, `preview`: SGF and GTP coordinates, column labels, star points and
  the numbered principal-variation preview.
- `move_numbers`: move numbers shown on stones, along the current lineage of a
  game tree.
- `ownership`: breadth-first distance fields from the stones of each color and
  the per-point influence behind the geometric territory estimate.
- `markup`, `properties`: board markup tools and the SGF property transactions
  they produce.
- `engine`: the decisions of the engine and analysis workflow (whether and
  how an analysis run or engine connection starts, what streamed lines,
  finished requests and generated moves lead to, plugin command routing),
  as functions from the shell's state to its next action.
- `layout`, `shell`, `icons`, `tab_title`: pane rules, bottom-deck and plugin
  state, close decisions, key routing, embedded icon assets and tab titles.

Public `law_*` proof functions state properties that span several operations
(undo after an edit, SGF round trips, deck toggling, ...).

`tests/` runs the library on concrete values. `app/` is the terminal entry
point and the floating-point geometry that the library does not hold.
