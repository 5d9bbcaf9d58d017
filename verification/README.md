# posts_service

A small posts service (an HTML site and a JSON API over a database and a
Redis cache), with its request handling verified by Verus.

- `src/` is the verified library. Every HTTP handler is a state machine
  (`protocol.rs` holds the actions it asks for and the events that answer
  them): `root/controller.rs` for the site, `posts/controller.rs` and
  `service/posts/controller.rs` for the JSON listings, details and seeding,
  `paging.rs` for the cached, searchable listing both JSON listings share.
  `cache.rs` builds the cache keys and proves them injective; `decimal.rs`
  renders numbers in decimal, proved against a spec of decimal notation
  (the tests compare it with `format!`).
- `app/` is the server: it performs each action with actix-web, actix-redis,
  sea-orm and tera, and feeds the answers back to the library.
- `tests/` runs the machines on concrete events.
