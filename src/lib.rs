//! Transport session layer for streaming live audio between two peers:
//! capability negotiation, wire framing, datagram reassembly, direction-pump
//! decisions, cooperative termination and connection retry.

pub mod config;
pub mod errors;
pub mod frame;
pub mod negotiate;
pub mod reassembly;
pub mod retry;
pub mod session;
pub mod stream;

pub use config::{ChannelLayout, Config, SampleFormat};
pub use errors::Error;
pub use stream::{BaseStream, StreamFlags, StreamType};
