# zhuque_backup

Backups of a data directory that holds an SQLite database: how they are made,
checked and restored.

- `src/` is the verified library. It performs no input or output. Each operation
  is a machine, a function from an event to the next step, with a contract that
  says exactly which step follows. What holds of whole runs of a machine stands
  beside it, in the modules whose names end in `_laws` and at the end of
  `archive` and `database`.
- `app/` drives the machines: it touches the disk, the database and the requests.
- `tests/` runs the machines on made-up answers and on a real directory.

The library calls `flate2` and `tar` to expand an archive and to list its
entries, `chrono` for the local time, and `uuid` for identifiers. What it takes
for granted of them is stated in `archive`, `header`, `naming` and `walk`, above
the functions that make the calls.
