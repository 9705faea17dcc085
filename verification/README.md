# wiz_rpc

A verified model of the JSON-RPC dialect spoken by WiZ smart lights.

`src/` is the library, checked by Verus:

- `method` — the methods and their wire names, with the proof that names read back.
- `params` — request parameters: the struct that is sent, its optional twin, and the
  one-field enum callers build requests from.
- `json` — the compact JSON text of requests, written byte by byte.
- `model` — requests, replies and their interpretation.
- `error` — error types and the mapping of JSON-RPC error codes.
- `mac` — parsing of the MAC addresses devices report.
- `registry` — the devices a client knows by name, and client defaults.

`app/` holds the UDP client: sockets, pings, retries and the serde decoding of replies.
