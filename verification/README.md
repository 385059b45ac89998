# iris

A Discord gateway client, verified with Verus.

- `src/` is the library. `structures` holds the values exchanged with the
  gateway; `sharding::shard` the status machine of a shard's connection and
  the plan by which a shard is closed; `sharding::heartbeat` the heartbeat
  loop's decisions and its pings; `sharding::payload` the JSON framing of
  outgoing messages, with decimal numbers; `client` the watcher's rule for
  each shard and the creation of the shards; `http` the API's URLs and the
  `Authorization` header of requests; `events` the trait by which a bot
  handles the gateway's events.
- `app/` is the runtime around it: websockets, HTTP, tasks and channels,
  `serde` (de)serialisation, and the `lana` bot that runs the client, reading
  its token from the file `token`.
- `tests/` runs the library on concrete values.
