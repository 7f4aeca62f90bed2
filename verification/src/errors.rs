//! The client's error taxonomy.
//!
//! Every call either completes or fails with one of these: a transport
//! fault, an authorization failure, a payload that did not decode, a
//! server-reported error, or a precondition detected before any call was
//! issued.  The streaming adapter never retries: any of these is terminal
//! for its stream.

use vstd::prelude::*;

verus! {

/// What went wrong with one client request.
#[derive(Clone, Debug, PartialEq, Eq)]
pub enum ClientRequestError {
    /// The call could not complete at the transport layer.
    Transport(String),
    /// The credential lacks the required scope or is invalid or expired.
    Authorization(String),
    /// The response payload did not match the expected schema.
    Decode(String),
    /// The server answered with a non-success status and this message.
    ServerError { status: u16, message: String },
    /// A precondition failed before any call was issued.
    Custom(String),
}

impl ClientRequestError {
    /// A short description of the error, for the consumer to inspect or
    /// log.
    pub fn message(&self) -> (r: &String)
        ensures
            r@ == (match self {
                ClientRequestError::Transport(m) => m@,
                ClientRequestError::Authorization(m) => m@,
                ClientRequestError::Decode(m) => m@,
                ClientRequestError::ServerError { message, .. } => message@,
                ClientRequestError::Custom(m) => m@,
            }),
    {
        match self {
            ClientRequestError::Transport(m) => m,
            ClientRequestError::Authorization(m) => m,
            ClientRequestError::Decode(m) => m,
            ClientRequestError::ServerError { message, .. } => message,
            ClientRequestError::Custom(m) => m,
        }
    }
}

/// Error of a convenience helper: either the client call failed, or the
/// helper's own input conversion did.
#[derive(Clone, Debug, PartialEq, Eq)]
pub enum ClientExtError<E> {
    /// The underlying client call failed.
    ClientError(ClientRequestError),
    /// The helper's own input conversion failed.
    Other(E),
}

} // verus!
