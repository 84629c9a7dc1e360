# Remoterm

A persistent, multi-session remote terminal server: named sessions that survive
disconnects and restarts, replay of the output that a client missed, and a keyboard
for touch screens.

`src/` is a Verus library. It holds the rules of the server, each with a contract that
Verus proves:

- `keyboard`: the bytes that each key sends
- `history`: the bounded history of a session's output, and what is replayed from it
- `session`: a session, and each change that it goes through
- `lifecycle`: laws of a session's life
- `operation`: creating, renaming, restarting, stopping, archiving, deleting and
  recovering sessions, as steps between effects
- `conduct`: laws of the operations
- `connection`: a client's connection, as steps between messages
- `storage`, `record`, `sql`: what is run on the database, and how rows are read
- `api`: refusals, and the order in which sessions are listed
- `process`: what a session runs, and what becomes of what it writes
- `proto`: the frames and summaries that are exchanged
- `payload`, `args`, `session_id`, `timestamp`, `text`: text forms of bytes, argument
  lists, identifiers and instants
- `column`: unsigned numbers in signed columns

`app/` is the server program around it: the command line, HTTP and websockets, SQLite
and pseudo-terminals. It performs the effects that the library asks for and hands back
what came of them.

`tests/` runs the library on concrete values.
