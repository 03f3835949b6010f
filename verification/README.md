# limiter

A token-bucket rate limiter whose logic is verified with Verus.

- `src/` is the verified library: the bucket arithmetic (`algorithms::token_bucket`),
  the request decision (`limiter_helper`, `limiter`), the storage-key format
  (`models::key`), the in-memory bucket store (`memory`, `store`, `traits`) and a
  standalone limiter (`basic`). Each function states its result in its contract; the
  laws of the library (refill bounds, read-after-write, expiry, capacity bound) are
  proof functions beside the code they speak of. The system clock is read in `utils::time`,
  through three trusted one-call functions over std's clock.
- `app/` holds what talks to the outside world: the Redis-backed store, the async
  request path, configuration read with serde, a lock-guarded store for
  threads, and console output.
- `tests/` runs the library on concrete values.
