# space_query_probes

Probes of a SQL workbench: of its live servers, of its windows, and of the files
it exports. Each probe runs statements, drives modals or reads files back, holds
what it saw against what must be, and tells every failure.

The library under `src/` decides everything and is verified with Verus. It does
no I/O. A live probe is a *plan*, a list of steps; a `Machine` walks it, asks for
one action at a time, takes the answer, makes the tests, and keeps the failures,
the lines to print and the error that ended the run. The program under `app/`
performs the actions on the application and hands back what it observed.

* `text`, `template`: text as sequences of characters, and messages with holes.
* `progress`, `grid`, `routine`, `import`: what the application reports, as plain
  values, and how it is read.
* `seen`, `op`, `verdict`, `import_verdict`, `screen_verdict`, `import_words`:
  observations, the kinds of steps, the tests, and the words for what fails.
* `machine`, `course`: the machine and the laws of its runs.
* `transaction_mode`, `proc_exec`, `read_only`, `session_leak`, `grid_save`,
  `grid_sql_export_live`, `import_live`, `object_export_live`: the probes that
  need a server.
* `grid_sql_export`, `object_browser_tabs`, `import_dialog`, `export_dialog`,
  `grid_shortcut_leak`, `ime`, `screen`: the probes that need a display.
* `result_export`: the exported files, read back by other parsers.
* `connection`, `report`: how the servers are reached, and how a run ends.

Verus believes a few contracts without proof: those of `String::push`,
`str::to_uppercase`, `str::parse::<i64>` and the `Debug` form of a string, in
`text`, and of `serde_json`'s `from_str` and `from_slice`, in `result_export`.
