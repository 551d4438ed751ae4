//! A client for a chat platform's gateway: the session protocol over a WebSocket,
//! the retry loop of its REST requests, and the splitting of long messages.
//!
//! The library decides and the program around it acts. Every function here works
//! on plain values and returns what to do next; sockets, clocks and HTTP clients
//! stay with the caller.

pub mod decimal;
pub mod discord;
pub mod discord_api;
pub mod events;
pub mod fields;
pub mod gateway;
pub mod gateway_ws;
pub mod json;
mod outer_wrapper;
pub mod send_message;
pub mod split;
pub mod text;

pub use crate::discord_api::Channel;
pub use crate::outer_wrapper::Discord;
pub use crate::outer_wrapper::Received;
pub use crate::outer_wrapper::SendHandle;
