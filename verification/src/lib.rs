//! Syscall bridge for a sandboxed bytecode module.
//!
//! The bridge relays privileged operations that a sandboxed guest module
//! requests to a trusted parent process over an inherited channel. This
//! crate holds the verified core: the length-framed wire protocol spoken
//! with the parent, the guest-memory marshaling layer, and the must-fail
//! stubs of the legacy runtime-shim import surface. Opening the channel
//! handle, running the bytecode engine and performing the blocking reads
//! and writes belong to the surrounding binary.

pub mod guest;
pub mod protocol;
pub mod stubs;
