# simpfun_sdk

An SDK for the Simpfun game-server API, split in two crates.

- `src/` is the library, written in Verus. It holds every decision the SDK
  makes, each with a proved contract: the request each API call sends
  (`api`), the headers, status handling and retry policy of the transport
  (`transport`), the probe and de-duplication state of the polling system
  (`events`), the WebSocket control messages, message handling and
  reconnect backoff (`ws`), and the API's data types (`models`). The wire
  encodings (`codec`) are computed by `serde_json`, `serde_urlencoded` and
  `reqwest`; their contracts state the exact text they produce.
- `app/` is the client around it: the HTTP connection and shared token, the
  JSON decoding of replies, the polling loop and the WebSocket connection.
  It performs the I/O and asks the library what to do.

`tests/` exercises the library on concrete values.
