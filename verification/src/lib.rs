//! A spin-lock style mutual-exclusion primitive, modelled and verified as a
//! state machine.
//!
//! The lock owns a protected value and a binary guard flag.  The guard is the
//! sole arbiter of access: the value may be read or written only while the
//! guard is held.  `lock` holds the lock itself; `protocol` proves the
//! protocol-level guarantees (mutual exclusion, visibility, liveness of the
//! individual steps) over whole interleaved histories of acquire and release
//! events.

pub mod lock;
pub mod protocol;

pub use lock::GuardState;
pub use lock::Mutex;
