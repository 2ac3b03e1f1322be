# backend

The verified core of the BOB management backend, written in Verus.

- `src/models` — hostnames of BOB nodes (trimmed, lowercased, and checked to
  end in `host:port` with a port from 1 to 65535), credentials, connection
  data and request timeouts.
- `src/services/dto.rs` — the answer shapes (disks, nodes, virtual disks,
  replicas and their statuses), counters by status and by request kind, and
  the typed metrics of a node with the rules that turn them into node
  problems and a node status.
- `src/services/space.rs` — the free-space rule of a node, decided exactly in
  integers the way its double-precision expression comes out.
- `src/services/auth.rs` — the login decisions as a transition function, and
  the password bytes a client is known by.
- `src/connector` — changing the port of a node address, the base path of
  the client of each node of a cluster by name, the base path of an HTTP
  client with its scheme check, the GET requests a client forms (URI and
  headers, with the authorization its credentials give), the status a probe
  reports, and how each answer code of each API method is read.
- `src/text.rs` — character-level helpers: trimming, decimal digits, the last
  occurrence of a character.
- `app/` — the server around the library: logging, the axum server with its
  login and logout routes, the hyper client and the cluster client that send
  what the library forms, JSON shapes with serde, and the loop that drives a
  login.
- `tests/` — tests of the library, among them comparisons of the hostname
  rules with the `regex` crate and of the free-space rule with `f64`
  arithmetic.
