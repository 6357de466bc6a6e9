# iroh_overlay

A node-to-node TCP overlay for Rusternetes services, carried by iroh P2P QUIC. Remote TCP
backends get deterministic loopback listeners (`127.84.x.y:<pod-port>`); each listener forwards
its streams to the node that owns the backend, which connects to the real pod endpoint.

`src/` is a Verus library. It holds what the overlay computes and decides, with contracts:

- `text`, `addr`: decimal numbers, text comparisons, IPv4 notation, plain socket addresses
- `config`: defaults, and the configuration that environment variables ask for
- `tunnel`, `tunnel_laws`: loopback addresses, the listener table, the search for an address
- `peers`, `peer_laws`: node advertisements, their storage keys, the table of peers
- `wire`, `forward`, `serve`, `relay`, `stream_laws`: the connect request and the two ends of a
  stream
- `publish`: how a node publishes itself, in storage and in its address file
- `refresh`: how a node refreshes its peers from storage
- `pace`: when nodes publish, refresh their peers, and accept clients and connections
- `runtime`: the overlay state of one node
- `clock`: timestamps

`app/` is the program around it: sockets, iroh connections, storage, JSON and timers. It needs
the `rusternetes_storage` crate of a Rusternetes checkout.

What the proofs rest on, besides Verus and its library: the byte order that `u16::to_ne_bytes`
uses, that a cloned `iroh::EndpointAddr` equals its source, and that how the standard library
reads a socket address depends on its text alone. Nothing is assumed of the clock.
