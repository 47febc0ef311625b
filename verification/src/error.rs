//! The backend's failure taxonomy.
//!
//! Three things can go wrong: the channel to the authorization daemon cannot
//! be established, the daemon fails a well-formed request at the protocol
//! level, or the caller asks for a capability this backend does not have.

use vstd::prelude::*;

verus! {

/// Why a biometric-gate operation failed.
#[derive(Clone, Copy, Debug, PartialEq, Eq, Structural)]
pub enum BiometricError {
    /// The channel to the authorization daemon could not be established.
    Connection,
    /// The daemon failed a well-formed request at the protocol level.
    Protocol,
    /// The operation is not supported by this backend.
    Unimplemented,
}

impl BiometricError {
    /// The text that describes this failure.
    pub open spec fn message_spec(self) -> Seq<char> {
        match self {
            BiometricError::Connection => "could not reach the authorization service"@,
            BiometricError::Protocol => "the authorization service rejected the request"@,
            BiometricError::Unimplemented => "not supported on this platform"@,
        }
    }

    /// A human-readable description of the failure.
    pub fn message(&self) -> (r: String)
        ensures
            r@ == self.message_spec(),
    {
        match self {
            BiometricError::Connection => "could not reach the authorization service".to_owned(),
            BiometricError::Protocol => "the authorization service rejected the request".to_owned(),
            BiometricError::Unimplemented => "not supported on this platform".to_owned(),
        }
    }
}

} // verus!
