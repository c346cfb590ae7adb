//! A small blocking HTTP client core for a scripting host.
//!
//! The crate decides everything about one exchange that does not touch the
//! network: how the host's loosely typed options become a typed request, what
//! is done with each outcome of the transport, and what the caller gets back.
//! Performing the transfer itself is left to the embedding program.

pub mod verb;
pub mod error;
pub mod host;
pub mod header;
pub mod options;
pub mod target;
pub mod request;
pub mod response;
pub mod laws;
