//! A one-shot rendezvous channel that hands a single value from a producer to
//! a cooperative task running on a cord, together with the error types and
//! feature probes that surround it.
pub mod cbus;
pub mod error;
pub mod ffi;
pub mod oneshot;
pub mod protocol;
