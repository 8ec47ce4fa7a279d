# netherconduit-core

The protocol core of NetherConduit, a Minecraft proxy, with its behaviour
stated in Verus contracts and proved.

- `src/` is the library, verified by Verus:
  - `packet::primitives`: VarInts, big-endian integers, booleans and
    strings, read from and written to byte buffers, with round-trip laws;
  - `packet::stream`: cutting a byte stream into length-prefixed packets and
    writing packets back, with the framing laws;
  - `packet` (`RawPacket`), `packet::builder`, `packet::decoder`: packets,
    and reading and writing their fields in order;
  - `packet::types`: the handshake and ping-request packets;
  - `server`: protocol versions and the status the proxy reports;
  - `player_connection`: the decisions taken on a player's connection;
  - `buffer`: the `bytes` crate's buffers as the library sees them.
- `app/` is the proxy program around the library: sockets, tasks, logging,
  configuration from the environment, serde and floating point.
- `tests/` runs the library on concrete values.
