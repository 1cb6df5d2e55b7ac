# elerem

The verified core of the Elerem API-testing service: a load and fuzz testing
engine (launcher, rate limiter, virtual users, metrics) and the test API it is
exercised against.

- `src/` is the library, verified with Verus:
  - `text` — decimal notation, substring search, suffixes, trimming and
    splitting of strings, each against a specification over characters;
  - `fuzzer` — scenario configuration, request-error categories and request
    metrics, the launcher's job bookkeeping, the token bucket's refill rules,
    streaming statistics, virtual-user decisions, and the answers of the job API
    and of the metrics stream;
  - `web` — the test API's answers (user directory with search, prime counting,
    memory workload, timed endpoints), the job-search query builder and the
    dashboard user rules.
- `tests/` runs the library on concrete values.
- `app/` is the server around it: HTTP and WebSocket routes, channels, timers,
  the HTTP client, the database and the web framework.
