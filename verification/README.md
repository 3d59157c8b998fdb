# magic_wormhole_core

A magic-wormhole client library whose logic is verified with Verus.

- `src/` — the verified library:
  - `server_messages`: the messages exchanged with the mailbox server, their
    constructors, and the names of mailbox phases;
  - `message_eq`: equality of messages, the server's timestamp compared as a
    64-bit float;
  - `decimal`: decimal numerals of integers, with their injectivity;
  - `peer`: messages between the two peers and the receiver's decision on the
    message it gets;
  - `session`: a client session's state — application, mailbox server, the
    code asked for and the code once known;
  - `verification_code`: the printed form of the verifier;
  - `utf8_text`, `greeting`: reading bytes as text, and the C greeting.
- `tests/` — tests of the library.
- `app/` — the program around it: the JSON wire forms (serde), the C and JNI
  entry points, the blocking session driver, and a websocket probe as `main`.
  The driver needs the websocket session engine (`app/blocking.rs`), which is
  not part of this tree.
