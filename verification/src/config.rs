//! What a deployment sets.

use vstd::prelude::*;

verus! {

/// What a read that returns no bytes is taken to mean.
///
/// A stream reports the end of its input by a read of no bytes, but some
/// platforms hand out such reads while the peer is still there. Either
/// reading is sound for a pastebin; a deployment picks one.
#[derive(Clone, Copy, Debug, PartialEq, Eq, Structural)]
pub enum ZeroRead {
    /// No bytes for now: the connection counts as silent, and only the idle
    /// timeout ends the session.
    Transient,
    /// The peer has closed the connection: the session is finished at once.
    Closed,
}

/// The settings of the service.
#[derive(Clone, Debug)]
pub struct Config {
    /// The address to listen on.
    pub listen: String,
    /// The TCP port on which pastes are taken in.
    pub tcp_port: u16,
    /// The size of the buffer that one read fills, in bytes.
    pub buffer_size: usize,
    /// The domain name under which pastes are served.
    pub domain: String,
    /// The port under which pastes are served, as clients see it.
    pub http_port: u16,
    /// The number of characters of a slug.
    pub slug_len: usize,
    /// The directory that holds one file per paste. It has to exist.
    pub storage_dir: String,
    /// How long a connection may stay silent before its paste counts as
    /// complete, in milliseconds.
    pub idle_timeout: u64,
    /// What a read of zero bytes means.
    pub zero_read: ZeroRead,
}

} // verus!
