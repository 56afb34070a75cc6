//! The connection logic of a peer-to-peer node that upgrades relayed links to
//! direct ones by hole punching: address tagging for the hole-punch transport,
//! the protocol shims' decisions, per-peer connection bookkeeping, and the
//! control loop's reaction to each network event.

pub mod addr;
pub mod behaviour;
pub mod connections;
pub mod node;
pub mod table;
pub mod transport;

pub use addr::{is_holepunch_direct_addr, Addr, Protocol};
pub use transport::HolePunchTransport;
