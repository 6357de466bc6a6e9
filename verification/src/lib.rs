//! Rusternetes node-to-node TCP overlay backed by iroh P2P QUIC.
//!
//! The overlay keeps Kubernetes/Rusternetes API objects unchanged. kube-proxy still owns
//! service programming, but remote EndpointSlice TCP backends can be rewritten to deterministic
//! 127.84.x.y listeners. Those local listeners forward traffic over an iroh connection to the
//! advertised owning node, where it is TCP-connected to the real pod endpoint.
//!
//! This crate holds what the overlay computes and decides; sockets, storage and the clock are
//! read and written around it.
pub mod addr;
pub mod clock;
pub mod config;
pub mod forward;
pub mod pace;
pub mod peer_laws;
pub mod peers;
pub mod publish;
pub mod refresh;
pub mod relay;
pub mod runtime;
pub mod serve;
pub mod stream_laws;
pub mod text;
pub mod tunnel;
pub mod tunnel_laws;
pub mod wire;
