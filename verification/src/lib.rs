//! Core of a real-time broadcast hub: an identity allocator, a connection
//! registry, a broadcast engine that fans an event payload out to every
//! registered session, and the per-connection lifecycle state machine.
//!
//! All network I/O (the websocket listener, the actual sends) lives outside
//! this crate; the library computes payloads and recipient sets and decides
//! lifecycle transitions, and proves those computations correct.

pub mod client;
pub mod clock;
pub mod driver;
pub mod ids;
pub mod room;
pub mod textenc;
pub mod wire;

pub use client::ClientState;
pub use clock::Timestamp;
pub use ids::IdAllocator;
pub use room::ChatRoom;
pub use wire::{ChatMessage, WebSocketMessage};
