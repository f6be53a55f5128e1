# hackline-gateway

The cloud side of hackline: a REST API over SQLite for orgs, users,
devices, tunnels, commands, events and audit, with a one-time claim
flow, bearer-token authentication and optional TLS (self-signed,
manual certificates, or Let's Encrypt over ACME).

Layout:

- `src/` is the library, written in Verus. Every decision the gateway
  makes is a function with a contract: token hashing and comparison,
  device-scope checks, the claim flow, slug rules, the command outbox
  (caps, status, listing queries), audit projection, metrics and their
  text rendering, the probe-result cache, configuration and TLS mode
  selection, certificate expiry and renewal, and the step machines
  that drive command delivery and ACME certificate requests.
- `tests/` exercises the library on concrete values.
- `app/` is the binary: configuration loading, the database, the HTTP
  server and the ACME client, each handing plain values to the library
  and acting on what it answers.

The binary applies the SQL scripts found under `migrations/` in the
working directory at start-up.
