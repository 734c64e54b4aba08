# hydrabadger

Messages of a Honey Badger network node, verified with Verus.

- `src/` is the verified library: wire messages and internal messages, the
  signed frames that carry wire messages, the decision which received messages
  are accepted, and unique identifiers. `src/laws.rs` states what holds of the
  library as a whole. `src/keys.rs`, `src/frame.rs`, `src/uid.rs`,
  `src/transaction.rs`, `src/text.rs` and `src/outside.rs` say what is believed of other crates.
- `tests/` runs the library with the real crates.
- `app/` connects the library to sockets and gives messages their serialized
  form.
