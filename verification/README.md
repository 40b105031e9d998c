# FastShare

Peer-to-peer file transfer over QUIC: devices find each other on the local
network, agree on transfer parameters, and send files as checksummed chunks
over parallel streams, optionally compressed, optionally through relay
peers.

The engine's logic is a library verified with Verus (`src/`): every
function there carries a contract (`requires` / `ensures`) that Verus
proves, and the properties that span several functions are stated and
proved as proof functions (`lemma_*`). Calls into other crates (LZ4,
Zstandard, SHA-256, UUIDs, clocks, the concurrent peer map, QR codes)
go through small trusted items whose doc comments say what is assumed of
the crate.

## Layout

- `src/transfer` – chunk layout, stream scheduling, what a sender puts on
  the wire and what a receiver accepts, resume state.
- `src/network` – addresses, stream framing, capability negotiation,
  discovery records, the accept/decline protocol and connection retries.
- `src/distributed` – relay selection, chunk ranges per relay, routing.
- `src/compression`, `src/security`, `src/qr` – LZ4/Zstandard, trust and
  pairing, QR payloads.
- `src/storage`, `src/optimizer`, `src/wifi_direct`, `src/ui`,
  `src/history`, `src/batch` – chunk files and paths, adaptive tuning,
  hotspot state, screen state, history records, batch sends.
- `tests/` – tests of the library on concrete values.
- `app/` – the program around the library: sockets, QUIC, files, JSON,
  timers, floating-point metrics and the terminal interface.
