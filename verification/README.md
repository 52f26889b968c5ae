# im-select-server (client)

Command-line client that asks a local input-method server to save and switch,
or to restore, the input method. One request is sent over TCP to
`127.0.0.1:<port>` as a length-prefixed MessagePack frame and one response is
read back the same way.

Layout:

- `src/` — the verified library:
  - `frame.rs`: the 4-byte big-endian length prefix, the request header and the
    response size limit, with the round-trip laws of the prefix;
  - `exchange.rs`: one request/response exchange as a state machine that takes
    every decision, with the laws of the exchange (order of steps, framing of
    the request, the response limit, how failures are reported);
  - `protocol.rs`: commands, request and response, the request a command sends
    and the line reported when an exchange fails;
  - `error.rs`, `decimal.rs`: the failures and their text.
- `app/main.rs`: argument parsing, the TCP connection, MessagePack encoding and
  decoding, and the loop that performs the actions the exchange asks for.
- `tests/`: tests of the library.
