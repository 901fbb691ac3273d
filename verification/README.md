# ticklore

Server-authoritative game networking over TCP, verified with Verus.

The server owns a `World` and updates it on a fixed tick; everything that
arrives between two ticks is handed to `World::update` as one batch. A client
never sees the world: it receives a snapshot of its own `ClientView`, then only
the view events that `WorldEvent::view` lets it see, and replays them onto the
view. A `Shadow` presents the view on the client and sends its own events back.

## Layout

- `src/` — the verified library.
  - `model` — the traits a game implements and the inputs that drive them;
    replaying events onto a view.
  - `tick` — one tick as it is broadcast, projected per client.
  - `world_driver` — batching inputs between ticks, and when a tick carries a
    copy of the world.
  - `session` — one connection on the server: snapshot first, then visible
    events, arrival and departure announced once.
  - `listener` — which accept errors are ignored, and the back-off for the rest.
  - `client` — the connection lifecycle as the shadow sees it, the writer and
    reconnect decisions, replaying incoming batches, and the work of one frame
    of the shadow.
  - `transport` — the wire format: a big-endian `u32` length, capped at 4 MiB,
    then the payload.
  - `config` — server and client settings and their defaults.
  - `duration`, `shared` — the parts of std that the library calls,
    with the contracts it relies on.
- `app/` — the tokio server, the client's threads and raylib loop, and bincode
  encoding, built on the library.
- `tests/` — tests of the library on concrete values.
