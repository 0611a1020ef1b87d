# customer_profile

A customer profile service: customer accounts, linked provider identities,
OTP-confirmed changes of phone and email, profile images and The1 loyalty
memberships.

- `src/` is the verified core, written in Verus. Each use case is a state
  machine (`start`, then `resume` with the outcome of each call it asks for)
  whose steps are stated in its contract; the module `api` holds the HTTP
  error mapping (RFC 7807 problems), the caller header, health reports and
  upload forms. Identifiers are `u128` UUID values and instants are
  `Timestamp`s inside chrono's range.
- `app/` is the HTTP service around it: the ports that storage and outside
  services implement, the runner that performs each requested call, axum
  handlers and routes, observability and the server loop.
- `tests/` drive the use cases with scripted outcomes.
