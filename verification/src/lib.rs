//! Core of an interactive remote-desktop client session that runs over a
//! message-oriented transport.
//!
//! - [`data_channel`]: the byte-stream adapter over the transport's discrete
//!   messages.
//! - [`tls`] and [`connect`]: what is decided locally about the security handshake
//!   and the connection; the trust boundary of the handshake is described in
//!   [`tls`].
//! - [`config`] and [`builder`]: the settings of a session.
//! - [`event`] and [`session`]: the session event loop and its reactivation
//!   sub-loop, as a state machine.
//! - [`cursor`] and [`image`]: the cursor pipeline and the extraction of updated
//!   regions.
//! - [`input`] and [`writer`]: input frames and the writer task.
//!
//! The library holds decisions and data transformations only. Awaiting the
//! transport, driving the protocol engine and calling into the presentation layer
//! are left to the embedding application, which performs the actions this library
//! hands back.

pub mod builder;
pub mod config;
pub mod connect;
pub mod cursor;
pub mod data_channel;
pub mod event;
pub mod image;
pub mod input;
pub mod session;
pub mod tls;
pub mod writer;
