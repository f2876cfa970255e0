//! Presence-and-relay core for peer-to-peer encrypted chat.
//!
//! The server side of a chat system that tracks which identities are
//! currently online, enforces one online identity per display name, and
//! moves opaque encrypted payloads from a sender to a named recipient
//! without interpreting them. Delivery is either pushed over a live
//! per-connection channel or pulled from a per-recipient mailbox.

pub mod connection_manager;
pub mod frames;
pub mod handlers;
pub mod laws;
pub mod mailbox;
pub mod models;
pub mod protocol;
pub mod registry;
pub mod signaling;
pub mod state;

mod ids;
