# task_api

A task-management API with email two-factor login, role-based permissions
and a per-user Redis cache of task lists.

- `src/` is the verified core (Verus): the request handlers' decisions
  (credential and one-time-code checks, the five-minute challenge lifetime,
  admin-only task creation and assignment, cache keys, which cache entries an
  assignment removes, and the task-list answer from the cache or from the
  database), plus the six-digit one-time code (written from a random draw),
  its SHA-256 digest, Argon2 password hashing and checking, and HS256 access
  tokens (issued only for a verified login, read back with a verified expiry
  check) through trusted wrappers. Laws over these are proof
  functions: the emailed code is accepted for five minutes, a code works only
  once, a second request for one's tasks is served from the cache, and an
  assignment removes the cached lists of the assignee and of every previous
  holder of a moved task while leaving all other users' lists in place.
- `app/` is the HTTP service around it: axum routing, PostgreSQL through
  sqlx, Redis and JSON forms of the types. It runs the
  steps the core decides, in order.
- `extras/migrations/` holds the database schema the service's queries use.
- `tests/` exercises the core on concrete values, including the validation
  workflow with an in-memory map standing in for Redis.
