//! A verified core for POSIX-style signal handling.
//!
//! This crate holds the value types and the exact semantics of signal-set
//! membership, signal dispositions, and the calling thread's blocked-signal
//! mask.  The raw system calls that carry these values to the kernel live in
//! the embedding application; everything here is ordinary data manipulation,
//! specified and proved.

pub mod errno;
pub mod sys;
