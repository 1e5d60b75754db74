# chalk

A whiteboard for the browser. The drawing document, its undo/redo history,
the selection edits, the tool and theme state, colour parsing and the tables
behind the toolbar, the keybindings and the command palette form a library
verified with Verus; the browser front end is an ordinary Leptos program that
uses it.

- `src/` — the verified library (crate `chalk`).
  - `canvas/` — primitives, actions, the history with its undo/redo laws, and
    the whiteboard state whose edits keep the history tracking the document.
  - `ui/` — colours, panel layout and CSS, keybindings, the command palette and
    the meaning of action strings.
  - `text.rs` — string helpers with specifications.
- `tests/` — tests of the library on concrete values.
- `app/` — the Leptos application: canvas rendering, pointer handling,
  floating-point geometry, generated collections and the components.
