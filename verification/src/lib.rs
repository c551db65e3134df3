//! A typed mutual-exclusion lock that pairs protected data with the guard
//! that grants access to it.
//!
//! [`mutex::Mutex`] owns the protected value and is the sole authority for
//! creating guards; a [`mutex::MutexGuard`] is the proof of exclusive
//! ownership and the only access path to the value.  The lock's state machine
//! (`Unlocked -> Locked` on acquisition, `Locked -> Unlocked` on release) is
//! stated abstractly in [`state`] and proved of every operation.

pub mod counting;
pub mod mutex;
pub mod state;
