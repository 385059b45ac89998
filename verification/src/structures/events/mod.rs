//! The payloads of the gateway events that the client understands.

pub mod ready;
