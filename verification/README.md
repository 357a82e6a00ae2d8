# rcopy

A local clipboard history for X11 sessions: a daemon captures the clipboard
(`text/plain`, `text/html`, `image/png`) into a SQLite database and answers
requests on a Unix socket; a GTK4 picker searches the history and restores,
pins, favorites or deletes items. Restoring writes one representation back
(PNG first, then plain text, then HTML) and can paste it with `xdotool`.

## Layout

- `src/` is the library, written in Verus. Its own functions carry
  contracts that Verus proves: the search ranking, the HTML reduction of
  copied documents, content hashing, MIME selection, the order in which the
  clipboard's targets are read, the picker's list state and how it answers the
  daemon's replies, the stored form of an item, the statements run on the
  database and what is made of their answers, the request dispatch and the
  error messages. Calls into `std`, `sha2`, `uuid`, `chrono`, `serde_json`
  and `rusqlite` go through small trusted wrappers (`external_body`): Verus
  believes their contracts, which state what those libraries document, and
  does not prove them.
- `app/` is the program around it: the `xclip`/`xdotool` processes, the
  socket server and client, JSON on the wire, the lock file and the GTK
  window. `rcopy daemon` runs the daemon; `rcopy` opens the picker.
- `tests/` runs the library on concrete values.

## Laws proved in `src/`

- Search results are in rank order (pinned, then favorites, then most
  recently used), hold exactly the matching items, and never a deleted one;
  a blank query lists every item that is not deleted.
- A content hash is 64 lower-case hex digits of the SHA-256 of the payload.
- The row stored for an item reads back as the same item (for times in the
  years 0000 to 9999, the ones a stored time can hold).
- Each operation on the history states the statement it runs and the
  values it binds (the item's row, its id, the time, the flag).
- A restore writes the chosen payload to the clipboard once; only after the
  write worked is the item's use recorded; only then, and only when asked,
  is it pasted.
- A read of the clipboard's targets ends after at most three reads, with
  the plain text normalized and HTML kept only when there is no plain text.
- The picker's selection always points at a row (or 0 for an empty list),
  whatever it is asked to do or told by the daemon.
- Condensing whitespace gives single-spaced text and is idempotent.
