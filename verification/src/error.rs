//! The router's error taxonomy: configuration errors, resource errors, and
//! runtime transfer errors.

use vstd::prelude::*;

use crate::config::Route;

verus! {

#[verifier::external_type_specification]
#[verifier::external_body]
pub struct ExIoError(std::io::Error);

/// Everything the router can report.
///
/// Configuration errors (`DuplicateIdentifier`, `UnknownEndpoint`,
/// `InvalidPath`, `InvalidRoute`, `InvalidBaudRate`) are detected before any
/// OS resource is allocated.  `Link` and `Serial` are resource-allocation
/// errors raised at startup.  `Read` is fatal to the whole transfer loop;
/// `Write` is reported per destination and never fatal.
pub enum Error {
    /// The symbolic link for a virtual endpoint could not be created.
    Link { cause: std::io::Error },
    /// The OS could not allocate a pseudo-terminal pair or open a serial
    /// device; the cause is the serial subsystem's error converted to an
    /// I/O error.
    Serial { cause: std::io::Error },
    /// A stream closed unexpectedly.
    Closed,
    /// A read from a source endpoint failed.
    Read { source_id: String, cause: std::io::Error },
    /// A write to one destination failed.
    Write { destination_id: String, cause: std::io::Error },
    /// Two declared endpoints share an identifier.
    DuplicateIdentifier { identifier: String },
    /// A routing edge references an identifier no declared endpoint has.
    UnknownEndpoint { identifier: String, edge: Route },
    /// A routed destination has no registered sink stream.
    RoutingIntegrity { destination_id: String },
    /// An endpoint path with no final component, so no identifier can be
    /// derived from it.
    InvalidPath { input: String },
    /// A route argument without a `:` separator.
    InvalidRoute { input: String },
    /// A baud rate that is not a decimal `u32`.
    InvalidBaudRate { input: String },
}

} // verus!
