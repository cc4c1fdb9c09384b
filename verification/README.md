# leviath_dashboard

The logic of a terminal dashboard for agent runs, verified with Verus: the run
list and its synchronisation with the runs directory, killing and deleting runs,
the new-run screen with its inputs, file completion and unattended switch, the
mouse selection, and what every pane shows.

- `src/` is the library. Each screen is described as values (spans, lines,
  rectangles, click targets), and every function states what it returns or changes.
  `src/outside.rs` holds all that is believed rather than proved.
- `tests/` runs it.
- `app/` is the terminal side: it reads the disk and the clock, takes keys and mouse
  events, talks to the daemon, and paints what the library says is on screen.
