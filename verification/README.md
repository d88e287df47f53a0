# edirstat-scan

A read-only, headless disk scan into a compact SQLite snapshot.

`src/` is the library, verified with Verus: every decision on what a scan read and
reports, on plain values. The time limit, and the walk's own checks for cycles and
device boundaries, are the program's.

- `arena`: the scanned tree. `allocation`: allocated bytes of whole subtrees.
- `filetime`, `text`, `row`: the values of one node's row.
- `paths`, `directories`: where a node stands and whether it is excluded.
- `model`: what a snapshot of an arena holds, as mathematics. `laws`: what holds of
  every snapshot.
- `writer`: the writing of a snapshot, one action at a time. `output`, `schema`: its
  names and its SQL.
- `scan`, `run`, `events`: whether a scan may start, when it stops, what it reports.
- `file_id`: identifiers of files.

`app/` is the program around it: command line, directory walk, database, threads.
`tests/` runs the library.
