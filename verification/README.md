# liteapi

A client for the TON lite server API, verified with Verus.

- `src/tl/` holds the values a client and a server exchange: block and
  account ids (`common`), the queries (`request`), the answers (`response`)
  and `FromResponse`, which reads one kind of answer (`utils`).
- `src/types.rs` holds the client's error type.
- `src/client.rs` holds `LiteClient`: the connection, the masterchain block
  that the next query must wait for, and for each operation the query it
  sends and how its answer is read. The laws of the client are proved there.
- `app/` sends the queries over ADNL and awaits the answers
  (`AsyncLiteClient`); the TL encoding of messages is passed in as a
  `LiteCodec`.
