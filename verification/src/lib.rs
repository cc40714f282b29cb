//! Client-side connection lifecycle core of a PC-to-headset VR streaming
//! system: peer discovery, session negotiation, the streaming task graph's
//! decision logic, corruption recovery, and the process-wide streaming state
//! machine. All I/O is performed by the embedding program; this library holds
//! the verified decisions and state.

pub mod config;
pub mod events;
pub mod messages;
pub mod packets;
pub mod session;
pub mod supervisor;
pub mod video;
