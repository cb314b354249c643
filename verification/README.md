# airmash_server

The logic of an AIRMASH game server, verified with Verus.

- `src/protocol`: the binary encoding of the protocol's integers, booleans,
  byte strings, texts and small data types, with the laws that decoding what
  was encoded gives back the integers, booleans and small data types.
- `src/system`: the decisions the game systems and event handlers take each
  frame: commands, specials, pings, upgrades, visibility, collisions and
  logins. Positions and speeds are floating point and stay with the caller;
  what is decided from them arrives here as integers and flags.
- `src/text.rs`, `src/rng.rs`: the calls into std, `bstr` and `rand` that the
  logic makes, each with the contract it is trusted to meet.
- `app/`: the plane prototypes, the float encoding and the frame-by-frame
  motion of planes, which work in floating point.
- `tests/`: tests of the library on concrete values.
