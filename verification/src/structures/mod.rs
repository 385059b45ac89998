//! The values that travel between the client and the gateway.

pub mod events;
pub mod flags;
pub mod gateway;
pub mod snowflake;
pub mod user;
