# polymarket_v2_backend

The logic of a Polymarket trading-bot backend, written in Verus and verified:
credential encryption, stored-key handling and the credential cache, RLP
encoding of Polygon transactions, market discovery and listing, order and
funding checks, and the structured-tracing helpers.

- `src/` is the verified library. Calls into outside crates (AES-GCM,
  PBKDF2, base64, hex, bcrypt, serde_json, chrono, rand, std parsing and
  formatting) go through small trusted wrappers whose contracts say what the
  crates' documentation promises.
- `tests/` runs the library on concrete values.
- `app/` is the HTTP server around it: axum routes, SQLite through sqlx,
  HTTP requests to Polymarket and Binance, JWT issuing, and the price
  arithmetic, which is floating point.
