# SecureNet

The rules of a small zero-trust service mesh, verified with Verus.

- A **vault** attests machines and issues certificates that are valid for five minutes
  (`src/vault/`): the allowlist and the nonces (`attestation_verifier`), what a certificate says and
  how it is signed (`issuer`, `x509`), the issuance log (`log`), and the requests (`state`,
  `routes`).
- Every **service** starts locked, asks the vault for a certificate (`attestation`, `handshake`,
  `identity`), builds its TLS configuration from it (`tls`, `boot`) and renews it when nine tenths of
  its time have passed (`rotation`, `vault_client`, `share`). It turns away peers whose
  certificates were revoked (`revocation`). `users` and `orders` are the two
  services of the mesh.
- A **gateway** logs users in and passes their requests on (`src/gateway/`): tokens and users
  (`jwt`), the check before every protected request (`middleware`), and the requests (`routes`).

`models` and `errors` hold what travels between the services; `clock`, `encoding`, `table` and
`text` are what the rest is built on.

What the functions in `src/` do is stated in contracts, which Verus proves. What the library takes
from other crates (`rcgen`, `rustls`, `jsonwebtoken`, `bcrypt` and others) goes through small
functions marked `external_body`; their contracts are not proved, and say what is relied on. Where a
function reads a clock, a second one takes the time as an argument. Where a key has to be generated,
which can fail, a second one takes the outcome: `sign_leaf` and `sign_root` take the key, and
`settle_at` takes the certificate. The public proof functions state what holds of the library as a
whole, for instance that one nonce gives at most one certificate unless it is issued again, or that
a failed renewal keeps the certificate in use.

`app/` is the program around the library: HTTP, TLS connections, files, telemetry. `tests/` runs the
library with the real crates.
