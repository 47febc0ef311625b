//! Biometric gate, Unix backend.
//!
//! A desktop credential manager gates its secret-unlock operation behind an
//! OS-level authorization prompt.  On Unix the decision itself is owned by the
//! system authorization daemon (polkit), reached over the system message bus;
//! this crate holds the backend's own logic: which outcome every observed
//! transport result maps to, and whether the daemon's action registry offers
//! the unlock action at all.  The transport calls themselves are I/O and live
//! outside the verified library.

pub mod error;
pub mod gate;
