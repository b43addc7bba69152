//! The application layer of a one-message-per-stream echo exchange over a
//! secure, multiplexed transport: addresses and configuration, the echo
//! protocol, the lifecycle of connections and sessions, and the message feed
//! that a user interface reads.

pub mod address;
pub mod protocol;
pub mod config;
pub mod identity;
pub mod server;
pub mod client;
pub mod exchange;
pub mod bridge;
pub mod failure;
pub mod trust;

pub use bridge::ChatApp;
pub use client::ClientConnection;
pub use client::QuicClient;
pub use config::ClientConfig;
pub use config::ServerConfig;
pub use server::QuicServer;
