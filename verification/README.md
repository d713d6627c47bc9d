# auth_service

The core of a multi-tenant authentication and authorization service, written
in Verus: the functions under `src/` carry contracts that Verus proves, except
the small trusted wrappers around outside crates, whose contracts are
believed as their doc comments describe.

- `src/` — the verified library: configuration from environment variables,
  account and credential rules, one-time passwords, client and service
  credentials with rotation grace periods, request signatures, rate and bot
  screening, tenant bootstrapping, organization trees, roles, capability
  evaluation, invitations and the multi-tenant data migration (as a state
  machine that its caller drives against the store). Calls into outside
  crates (argon2, sha2, hex, base64, rand, uuid, urlencoding, validator,
  isbot, governor) sit behind small trusted wrappers whose doc comments say
  what their contracts claim.
- `tests/` — tests of the library on concrete values.
- `app/` — the program: reads the process environment, builds the
  configuration and the request limiters, and reports readiness.
