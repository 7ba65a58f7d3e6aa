# https_samp

The verified core of an HTTPS client plugin for SA-MP and Open Multiplayer
servers: the shared plugin state (header layers, response queue, one-shot
request options, cancellations, staged request bodies, client settings), the
redirect and body-cap policy of a request in flight, and the logic of the
script natives. Contracts are proved with Verus.

- `src/` — the library, verified with Verus.
  - `state.rs` — the shared state and its operations.
  - `ops.rs` — every state-changing operation as one transition function over the state's view; runs of operations are stated over it.
  - `https.rs` — jobs, the request flow (redirect policy, body cap), completion.
  - `natives.rs` — what each script native decides.
  - `headers.rs`, `payload.rs`, `urls.rs`, `errors.rs`, `encoding.rs`, `text.rs` — supporting types and calls into `url`, `base64`, `serde_json`, `reqwest` and std.
  - `laws.rs` — properties of the library as a whole.
- `app/` — the plugin around the library: plugin entry points, natives that
  read script arguments, the worker pool that performs the HTTP requests, the
  HTTP client, and callback dispatch.
- `tests/` — tests of the library.
