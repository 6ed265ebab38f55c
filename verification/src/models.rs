//! The records exchanged with the session service and the events handed to
//! the consumer.

pub mod auth;
pub mod events;
pub mod session;
pub mod state;
pub mod websocket;
