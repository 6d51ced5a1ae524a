# mcpd

The core of the MCP system daemon, verified with Verus.

- `src/common.rs` – tools and risk levels.
- `src/security.rs` – the capability-based risk engine and HMAC-SHA256 signing of data.
- `src/risk_engine.rs` – the name-based risk engine.
- `src/crypto.rs` – hexadecimal encoding and the HMAC-SHA256 call (`hmac`, `sha2`, `hex`).
- `src/string_map.rs` – a string-keyed map with distinct keys, specified as a `Map`.
- `src/registry.rs` – the tool registry and its signing and checking for storage.
- `src/config.rs` – security settings and their defaults.
- `src/daemon.rs` – the request handler: registration, tool listing, the audit-log
  request, routing, risk assessment, confirmation tokens with a lifetime and a
  bound, and execution; its behaviour is the relation `handles`.
- `src/properties.rs` – properties of one or two consecutive requests.
- `src/runs.rs` – properties of whole runs of requests (confirmation safety).
- `app/main.rs` – the daemon program: configuration, storage, the transaction log,
  random confirmation tokens, JSON-RPC over a Unix socket.
