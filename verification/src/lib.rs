//! A borrowed view of the digest inside a `GitOid`, readable as raw bytes or
//! as lowercase hexadecimal text.
//!
//! [`hash`] holds the view itself. [`encoding`] defines the hexadecimal
//! notation and proves what callers may rely on about it.

pub mod encoding;
pub mod hash;
