//! Values exchanged with the PAKE engine collaborator.
//!
//! The engine is consumed as an opaque primitive: each of its start
//! operations yields an opaque server-side state blob and a response
//! message for the client, and each finish operation either yields bytes
//! (a credential file, a session key) or rejects the exchange.  The
//! orchestrators receive those outcomes as plain values and never look
//! inside them.

use vstd::prelude::*;

verus! {

/// What an engine start operation produced: the server state to retain
/// between the two round trips, and the message to send back.
pub struct EnginePair {
    pub state: Vec<u8>,
    pub message: Vec<u8>,
}

} // verus!
