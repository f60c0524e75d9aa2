# bioscape

The verified core of a small networked game.

- `src/common`: the client and server packet types, the one-packet-per-line
  framing with its round-trip law, sprites, texture paths and marker components.
- `src/client`: the client's network decisions (when to connect, what the reader
  and writer do with each message, line and result), the game scene's pause logic
  and network-test packet, and the single-inventory lookups.
- `src/server`: the registry of connected clients keyed by socket address, the
  decisions of each connection's reader and writer tasks, and those of the
  fixed-size transfer threads.
- `app/`: the server program and the I/O around the library: sockets, tokio tasks,
  threads, JSON and bincode encoding of the packets, logging and the entity-world
  queries.

## Notes on the layout

- The server keeps its clients in a `Vec` of (address, client) entries with a
  type invariant that no address occurs twice, in place of a `HashMap` keyed by
  the socket address. `std::net::SocketAddr` cannot appear in the library, so the
  key is the library's own `PeerAddr` enum. vstd's `HashMap` specifications hold
  only for key types that obey its key model, which vstd grants to `bool`, the
  primitive integer types and boxes of them; a socket address (an IPv6 address,
  port, flow information and scope id: 208 bits) fits in none of those. The
  registry's view is still a map from address to client.
- The library names the channel that each `crossbeam_channel` end belongs to, so
  that the registry's ends can be shown to pair with the ends handed to a
  connection's tasks. A client's reader end is a `ReaderEnd`, which keeps a
  record of every poll through it, so that a poll of the registry is shown to
  poll each reader end exactly once.
- `app/` holds only the server program. The client's graphical program (its
  `main`, state, scenes, rendering and the `GameWorld` that holds the entity world,
  the camera and the textures) is absent: it is built on `tetra` and `egui` and on
  modules that are not part of the sources, so `GameWorld` and `GameWorld::new`
  have no counterpart here, and the client's network threads in
  `app/client_network.rs` and inventory lookups in `app/client_inventory.rs` are
  never started by a client `main`.
