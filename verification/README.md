# zel_core

An RPC framework over peer-to-peer QUIC connections (iroh), split into a
verified library and the asynchronous code around it.

## Layout

- `src/` — the library, verified with Verus. It holds the decisions of the
  framework, each with a contract:
  - `errors`, `classification` — error types, their severities and texts,
    and the rules that classify a failure as an application error, an
    infrastructure failure or a system failure.
  - `circuit` — which failures reach a peer's circuit breaker, how its
    answers are read, and the circuit state observed for each peer.
  - `routing` — services and their resources, and routing a request.
  - `session` — the server side of one request stream, as a state machine.
  - `exchange` — protocol messages, client errors and the client side of
    a call, subscription, notification stream or raw stream.
  - `framing` — COBS framing of JSON-RPC messages, with size limits.
  - `jsonrpc` — transport limits, request shapes, reading and admitting a
    batch, method dispatch and its error answers, and the JSON-RPC
    connection loop's decisions.
  - `retry`, `lifecycle`, `request_reply` — retry predicates and counters,
    stream-task counting and shutdown, peer admission.
  - `laws` — properties that relate several operations.
- `tests/` — tests of the library.
- `app/` — ordinary Rust around the library: networking with iroh, serde
  forms of the messages, `anyhow` error marking, the circuit breakers of
  `circuitbreaker-rs`, configurations with float parameters, and the
  type-keyed extension map.
