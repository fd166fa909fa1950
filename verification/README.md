# logline

The verified core of LogLine's local store, an offline-first whiteboard.

- `src/` is the library, proved with Verus: the records (`domain`), the
  refusals and their messages (`error`), trimming and identifier symbols
  (`text`), the rules for names, identifiers and boards (`validation`),
  the workspace index (`index`), newest-first board lists (`recency`), the
  decisions of the store and where records live (`persistence`), and the
  properties that tie them together (`laws`).
- `app/` is the desktop shell: JSON files on disk, the clock, logging and the
  commands of the interface, calling the library for every decision.
- `tests/` runs the library on concrete values.
