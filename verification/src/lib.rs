//! A client for a local inter-process presence protocol, written without I/O.
//!
//! The library holds the rules of the session: how frames are laid out on the
//! wire, how the connection moves between its states, when a reconnection is
//! due and how long to wait for it, how presence updates coalesce and which
//! commands a change of handlers sends. The caller owns the transport, the
//! clock and the threads: it performs each read or write the library asks
//! for and reports the outcome back as a plain value.
//!
//! # Driving a session
//!
//! One pass of the background loop goes like this.
//!
//! 1. `Session::tick` says what the pass is for.
//! 2. To reconnect, `Session::open` says what is to be done: acquire a
//!    stream and send the handshake, then `Session::handshake_sent`; or
//!    read the reply, then `Session::finish_open`.
//! 3. To serve, read frames until `session::inbound` says that the pass has
//!    read enough. One read is a header, reported to
//!    `Session::header_read`, then the payload it announces, reported to
//!    `Session::payload_read`, and then what the frame asks for: a PONG to
//!    write, a CLOSE to take in, or a message to hand on. After the reads,
//!    `Session::outbound` gives the frames to write.
//! 4. Every event that a call returns goes to the caller's queue, and
//!    `SharedState::publish_connected` records where the session stands.
//!
//! On the caller's side, `Rpc` numbers the commands and `Rpc::check_events`
//! picks the events that a handler is waiting for.

pub mod backoff;
pub mod connection;
pub mod frame;
pub mod messages;
pub mod presence;
pub mod rpc;
pub mod session;
pub mod shared;

pub use connection::StreamError;
pub use presence::{Images, Party, Presence, Secrets, Timestamps, User};
pub use rpc::{EventHandlers, Rpc};
