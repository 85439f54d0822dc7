# zicade

A local forwarding HTTP/HTTPS proxy for corporate networks: direct, through
an upstream proxy (with Basic or Negotiate proxy authentication), or per
request by PAC, with an optional corporate-network gate that routes `Direct`
while off the corporate network.

- `src/` is the library, verified with Verus: configuration and its
  validation, routing and PAC parsing, the Negotiate handshake state machine
  and header codecs, the upstream conversation's decisions and wire parsing,
  tunnel close classification, the corporate-network gate, command-line
  parsing and the bounded log ring. Each public function states its result
  in its `ensures`; the cross-function properties are the `law_*` proof
  functions.
- `tests/` exercises the library on concrete values.
- `app/` is the `zicade` binary: config files, sockets, the async runtime,
  the monitor thread and logging, calling into the library for every
  decision.
