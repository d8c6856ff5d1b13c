# miden-watch

A terminal explorer for a Miden node: it follows the chain, stores blocks,
transactions and notes locally, and lets you browse them with vim-style keys.

The library under `src/` holds the explorer's logic, verified with Verus:

- `model.rs` — the explorer state as mathematical values (`AppView`) and what
  every action and key press does to it;
- `app.rs` — the executable state (`App`), proved to follow `model.rs`;
- `laws.rs` — properties across actions: the block list stays newest first
  without duplicates, a received block reads back, history navigation returns
  to where it was, searches land on the closest block;
- `views.rs` — the text of the detail views, breadcrumb and status bar;
- `sync.rs` — the decisions of the sync task as a state machine;
- `account.rs`, `endpoint.rs`, `text.rs`, `types.rs`, `action.rs`, `event.rs`.

`app/` is the program around it: terminal input and drawing, the SQLite store,
the node client, the clipboard and the task loops.
