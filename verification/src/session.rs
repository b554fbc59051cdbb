//! The lifecycle of one admin connection: open until closed, closed
//! exactly once and idempotently, and failing fast once closed.

use vstd::prelude::*;
use crate::error::{ConductorApiError, ConductorApiResult};

verus! {

/// The logical state of one admin connection. The transport itself lives
/// with the caller; this state decides whether calls may still be issued.
#[derive(Debug, PartialEq, Eq)]
pub struct ConnectionState {
    open: bool,
}

impl ConnectionState {
    /// Whether calls may still be issued on the connection.
    pub closed spec fn is_open(&self) -> bool {
        self.open
    }

    /// A freshly established connection is open.
    pub fn new() -> (r: Self)
        ensures
            r.is_open(),
    {
        ConnectionState { open: true }
    }

    /// Closes the connection. Closing an already-closed connection is a
    /// no-op: the state is left exactly as it was, and no error arises.
    pub fn close(&mut self)
        ensures
            !final(self).is_open(),
            !old(self).is_open() ==> *final(self) == *old(self),
    {
        self.open = false;
    }

    /// Fails fast with a transport error when the connection is closed;
    /// calls may proceed exactly while it is open.
    pub fn ensure_open(&self) -> (r: ConductorApiResult<()>)
        ensures
            r is Ok <==> self.is_open(),
            r matches Err(e) ==> (e matches ConductorApiError::TransportError(m) && m@
                == "connection is closed"@),
    {
        if self.open {
            Ok(())
        } else {
            Err(ConductorApiError::TransportError("connection is closed".to_owned()))
        }
    }
}

} // verus!
