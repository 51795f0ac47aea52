//! Error and result boundary of a PHP extension binding layer.
//!
//! The library defines the closed error taxonomy used by every fallible
//! binding operation, renders each error to its stable human-readable
//! message, converts native-layer failures into the taxonomy (ingest) and
//! error values into host-visible exception values (egress), and marshals
//! the arguments of the engine's non-fatal diagnostic call.

pub mod decimal;
pub mod diagnostics;
pub mod error;
pub mod exception;
pub mod flags;
