//! Client-facing half of a media-session proxy.
//!
//! The library holds the verified core of the proxy: classification of the
//! bytes read from a client connection into interleaved data frames and
//! textual command frames, construction of control-plane messages, the flow
//! registry (a map from flow key to a per-flow delivery channel, driven by a
//! command queue), dispatch of inbound control-plane events, and the state
//! machine of the control-plane session.  The surrounding tasks — sockets,
//! channels and the streaming RPC — perform the actions this library decides
//! on and feed the events back in.

pub mod frame;
pub mod message;
pub mod registry;
pub mod session;
