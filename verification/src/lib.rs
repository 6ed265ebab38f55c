//! Logic of a remote-control agent for presentation sessions.
//!
//! An agent exchanges a one-time code for a session, retrieves the session's
//! description and live state, joins the session over a bidirectional
//! stream, and turns the commands that arrive there into key presses on the
//! local keyboard. This crate holds what the agent decides and computes; it
//! opens no socket and presses no key itself.
//!
//! - [`api`]: the three calls to the session service, as requests to make
//!   and answers to interpret.
//! - [`codec`]: the text form of the messages on the stream.
//! - [`connection`]: the states of a connection and its reaction to each
//!   thing that happens to it; [`run`] states what holds over whole
//!   sequences of such things.
//! - [`dispatcher`]: the key presses and the event for each command.
//! - [`store`]: the record that the consumer polls, with its event queue.
//! - [`json`], [`decode`], [`responses`]: parsed documents and the records
//!   read out of them.
//! - [`models`]: the records themselves.

pub mod api;
pub mod codec;
pub mod connection;
pub mod decode;
pub mod dispatcher;
pub mod json;
pub mod models;
pub mod responses;
pub mod run;
pub mod store;
