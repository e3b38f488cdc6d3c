//! The synchronous core of a QUIC endpoint: one protocol engine shared by
//! many connections, the registry that routes engine events to them, and the
//! decisions of the task that drives both.

pub mod address;
pub mod channel;
pub mod driver;
pub mod endpoint;
pub mod engine;
pub mod error;
pub mod transport;

pub use address::{
    multiaddr_to_socketaddr, segments_to_socketaddr, IpAddr, Ipv4Addr, Ipv6Addr, Segment,
    SocketAddr,
};
pub use channel::{Offer, Outbox, Polled};
pub use driver::{next_step, Flush, Intake, Step};
pub use endpoint::{Arrival, EndpointInner, EndpointMessage, Routed};
pub use engine::{Config, Connection, Datagram, Engine, EngineCall};
pub use error::{Error, TransportError};
pub use transport::{Endpoint, Listener, ListenerEvent, Received, Verdict};
