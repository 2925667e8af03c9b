//! A pastebin over raw TCP, as values and verified functions.
//!
//! A client connects, sends bytes without any framing and then closes or
//! falls silent; the service stores the bytes in a file of their own and
//! answers with one line, the URL under which the paste can be fetched.
//!
//! This library holds the rules of that exchange and does no I/O itself:
//!
//! - [`slug`] draws the random name of a paste;
//! - [`url`] writes the URL and the reply line;
//! - [`idle`] tells when a connection has been silent for too long;
//! - [`session`] is the state machine of one connection: it is told what
//!   happened on the socket and the disk, and says what to do next;
//! - [`history`] states what holds of a session whatever it is told: what
//!   ends up in the file, and that there is one reply or none;
//! - [`isolation`] states that sessions side by side leave each other's
//!   pastes alone;
//! - [`config`] holds the settings of a deployment.

pub mod config;
pub mod history;
pub mod idle;
pub mod isolation;
pub mod session;
pub mod slug;
pub mod strings;
pub mod url;
