# Eddy

A lightweight text editor for the terminal, with its editing logic verified
by Verus.

- `src/` is the `eddy` library: rows and the text buffer, the undo history,
  the cursor and marking of the view, the status bar input and messages, the
  colour palettes, the log line format, and the editor's key handling as a
  function from state and event to new state and action. Every function
  carries a contract that Verus proves.
- `app/` is the terminal program around it: command line, drawing with
  crossterm, the clipboard, files and the event loop. It carries out the
  `EditorAction` that the library returns for each key.
- `tests/` runs the library on concrete inputs.
