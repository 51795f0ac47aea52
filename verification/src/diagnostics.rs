//! Marshalling for the host engine's non-fatal diagnostic call.
//!
//! The engine's entry point dereferences raw native memory, so the call
//! itself lives outside the library, in the unverified glue around it.
//! This module decides whether a diagnostic may be issued and builds the
//! exact arguments of the one native call: the glue performs one call per
//! request returned here, and none otherwise.

use crate::error::{c_string_bytes, has_nul_byte};
use crate::flags::ErrorType;
use vstd::prelude::*;
use vstd::string::StringSliceAdditionalSpecFns;

verus! {

/// The arguments of one native diagnostic call: the severity in the
/// engine's integer encoding, and the message as a NUL-terminated byte
/// string.
#[derive(Debug)]
pub struct DiagnosticRequest {
    /// The severity bits, encoded as the engine's native integer.
    pub severity: i32,
    /// The message bytes, with the terminating NUL appended and no NUL
    /// before it.
    pub message: Vec<u8>,
}

/// Decides and marshals a non-fatal diagnostic report, as `trigger_error()`
/// surfaces one in PHP.
///
/// Returns the arguments of exactly one native diagnostic call, or `None`
/// when the message holds an embedded NUL byte and cannot cross the
/// native string boundary: the report is then silently skipped, so that
/// diagnostic reporting never introduces a failure path of its own.
///
/// The severity domain is defined to fit the engine's integer encoding;
/// bits beyond it are a defect in the flag constants, not an input, and
/// are ruled out rather than handled.
pub fn php_error(type_: &ErrorType, message: &str) -> (r: Option<DiagnosticRequest>)
    requires
        type_.bits <= i32::MAX,
    ensures
        match r {
            Some(req) => !has_nul_byte(message.spec_bytes()) && req.severity == type_.bits as i32
                && req.message@ == message.spec_bytes() + seq![0u8],
            None => has_nul_byte(message.spec_bytes()),
        },
{
    let bytes = message.as_bytes();
    match c_string_bytes(bytes) {
        Ok(message) => Some(DiagnosticRequest { severity: type_.bits as i32, message }),
        Err(_) => None,
    }
}

} // verus!
