# shop_server

A QUIC game server: clients register, identify with a password, work for
money every few seconds, and buy and sell items from a catalogue kept in
SQLite.

- `src/` is the verified library (Verus):
  - `messages`: requests, responses and the four-byte length header of a frame;
  - `util`: password hashing and checking with argon2;
  - `clock`: moments read from `time::Timestamp` and the text of a waiting time;
  - `db`: the queries that answering a request needs, and their replies;
  - `server`: answering a request as a conversation with the database
    (`get_response`, then `continue_response` for each reply);
  - `connections`: the one-connection-per-address limit;
  - `laws`: properties of whole conversations (purchases, sales, work,
    registration and identification).
- `app/` is the executable around it: command line, QUIC endpoint, SQLite
  queries, and the wire encoding of messages.
- `tests/` runs the library on concrete values.
