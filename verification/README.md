# elo

The rules of an Elo ladder for table tennis, verified with Verus, and the
server around them.

- `src/` is the verified library: normalization of names and emails, the
  rules on valid games and on challenges, the ordered rating table and the
  replay of games in time order, the decisions of the request handler, the
  websocket protocol, the authentication and logging layers, the text of the
  mail, and the statement that writes replayed ratings back.
- `tests/` runs the library on concrete values.
- `app/` is the server: command line, SQLite store, websocket loop, HTTP
  layers, mail worker and mock data. Floating-point ratings and every
  read or write of the outside world live there; each decision is asked of
  the library.
