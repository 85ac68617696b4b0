//! Routing of byte streams among named serial endpoints.
//!
//! The crate models a byte-stream router: a set of named endpoints (virtual
//! pseudo-terminal ports or physical serial devices), a validated routing
//! table of directed edges between them, and the decision logic of the
//! transfer loop that fans every frame read from a source out to the
//! source's declared destinations.

pub mod config;
pub mod error;
pub mod frame;
pub mod mux;
pub mod pty;
pub mod routing;
pub mod text;
