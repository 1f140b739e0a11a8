# lepro-core

Core logic of the Lepro desktop connector, verified with Verus.

- `src/` — the library: PKCE verifiers and S256 challenges, the OIDC
  authorization URL and callback parsing, token requests and token
  bookkeeping, credential comparison, the provider settings documents for
  the Anthropic CLI, Codex and Gemini (merged through a small JSON model
  whose objects are maps), and the decisions of the loopback listener and of
  provider upserts.
- `tests/` — scenarios on concrete values.
- `app/` — the I/O around the library: HTTP requests (reqwest), the loopback
  server (axum/tokio), the OS keychain (keyring), serde conversions, and the
  connector's commands.
