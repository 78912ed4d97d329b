//! Session relay: token registry, session hubs, producer handshakes, the
//! chat runner's decisions and the terminal wrapper's local-first rules.

pub mod api;
pub mod chat;
pub mod clock;
pub mod config;
pub mod error;
pub mod gateway;
pub mod hub;
pub mod keyed;
pub mod message;
pub mod pty;
pub mod registry;
pub mod relay;
pub mod text;
pub mod token;
pub mod url;
