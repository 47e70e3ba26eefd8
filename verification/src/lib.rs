//! Verified core of a bridge that relays short text messages between an MQTT
//! broker and a chat-completion service while keeping a bounded transcript.
//!
//! The crate holds the decisions only: how a message is cut to size, which
//! turns the transcript keeps, what a completion reply means, and how the
//! bridge reacts to each broker event. Network traffic is left to the caller.

pub mod bridge;
pub mod completion;
pub mod config;
pub mod error;
pub mod message;
pub mod sanitizer;
pub mod session;
pub mod store;
pub mod text;
