//! `read` and `write`, optionally positioned, optionally vectored.
//!
//! The library decides everything about a read or write call that does not
//! need the kernel: how a file offset is checked and converted, how the
//! buffers of a vectored call are counted, which flags are passed, and how the
//! raw return value of the system call is turned into a result. The system
//! call itself is handed in by the caller as a closure that receives the
//! fully decided [`read_write::Call`].

pub mod error;
pub mod flags;
pub mod iov;
pub mod read_write;
