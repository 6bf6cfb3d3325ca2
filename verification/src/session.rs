//! Per-connection metadata and the authentication gate.

use vstd::prelude::*;

use crate::error::ApiError;

verus! {

/// Metadata of one transport connection. One instance exists per connection;
/// it carries the connection's authentication flag and the opaque handle used
/// to push pubsub messages to that specific connection.
#[derive(Clone, Debug)]
pub struct Meta {
    /// Opaque handle of the connection's event sink, assigned by the
    /// transport layer.
    sink: u64,
    /// Whether an `auth` call with the correct shared secret has been made on
    /// this connection, and no failed attempt after it.
    authenticated: bool,
}

impl Meta {
    /// The connection's event-sink handle.
    pub closed spec fn spec_sink(&self) -> u64 {
        self.sink
    }

    /// Whether the connection currently counts as authenticated.
    pub closed spec fn is_authenticated(&self) -> bool {
        self.authenticated
    }

    /// Fresh metadata for a new connection: not authenticated.
    pub fn new(sink: u64) -> (meta: Meta)
        ensures
            meta.spec_sink() == sink,
            !meta.is_authenticated(),
    {
        Meta { sink, authenticated: false }
    }

    /// The connection's event-sink handle.
    pub fn sink(&self) -> (sink: u64)
        ensures
            sink == self.spec_sink(),
    {
        self.sink
    }

    /// Sets the authentication flag to the outcome of a secret comparison.
    /// Only the gateway's `auth` operation calls this; no other operation
    /// ever flips the flag.
    pub(crate) fn set_authenticated(&mut self, authenticated: bool)
        ensures
            final(self).spec_sink() == old(self).spec_sink(),
            final(self).is_authenticated() == authenticated,
    {
        self.authenticated = authenticated;
    }

    /// Passes exactly when the connection is authenticated; a privileged
    /// operation calls this before performing any side effect.
    pub fn check_auth(&self) -> (r: Result<(), ApiError>)
        ensures
            self.is_authenticated() ==> r == Ok::<(), ApiError>(()),
            !self.is_authenticated() ==> r == Err::<(), ApiError>(ApiError::Unauthenticated),
    {
        if self.authenticated {
            Ok(())
        } else {
            Err(ApiError::Unauthenticated)
        }
    }
}

} // verus!
