# lagbot

Core of a cross-exchange lead-lag trading bot (Binance futures signal, Bybit
perpetual execution), with its decision logic specified and proved in Verus.

- `src/` — the verified library: entry risk gate with replay protection,
  warm-path risk flags, heartbeat safe mode, operator kill switch, startup
  validation of the edge-research profile, symbol registry, packet-log
  framing, heartbeat payloads, operator command parsing, control-panel
  authorization, Bybit request signing and reply codes, entry and exit
  verdicts, the follow-through window and the price-ring cursor.
- `tests/` — tests of the library on concrete values.
- `app/` — the runtime around it: one binary whose first argument picks a role
  (`executor`, `observer`, `panel`, `telegram`, `smoke`, `replay`). Network and
  file I/O, Zenoh transport, WebSockets, JSON and TOML, and the floating-point
  price statistics live there.
