# solvalmon

Monitoring and failover for a Solana validator (Agave, Jito or Firedancer).

- `src/` is the verified library: the API's responses and their JSON
  envelope, the request-signature checks, the tower hand-over, the
  identity switch (including finding the Firedancer process to kill in the
  output of `ps aux`), the vote-credit statistics, the connectivity watch,
  the sentry's health checks, alerts and automatic failover, the manual
  failover plan and the summary text.
- `app/` runs it: the HTTPS service with mutual TLS, the JSON-RPC and admin
  requests, the HTTP calls between sentry and monitors, the clock and the
  console.
- `tests/` exercises the library on concrete values.
