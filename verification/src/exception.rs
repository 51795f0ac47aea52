//! Plain-value models of the host engine's exception-side values: the
//! owned handle to a thrown host object and the exception value handed
//! back to the engine.

use vstd::prelude::*;

verus! {

/// An owned handle to a host-engine object that was thrown as an
/// exception.
///
/// The binding layer owns the underlying object uniquely for the lifetime
/// of the handle; moving the handle transfers that ownership, so the
/// object is released exactly once, when the last owner drops it. The
/// error boundary never looks inside the object: all it reads is the
/// engine's debug rendering of it, carried here as `debug_repr`.
#[derive(Debug)]
pub struct ZendObjectHandle {
    /// The host engine's debug rendering of the carried object.
    pub debug_repr: String,
}

impl ZendObjectHandle {
    /// A handle whose carried object renders to the given debug form.
    pub fn new(debug_repr: String) -> (r: ZendObjectHandle)
        ensures
            r.debug_repr == debug_repr,
    {
        ZendObjectHandle { debug_repr }
    }
}

/// A host-visible exception value: an exception class plus the message
/// that describes the failure.
///
/// Constructing this value does not raise anything in the engine; the
/// call-return plumbing that owns the boundary performs the actual throw.
#[derive(Debug)]
pub struct PhpException {
    /// The rendered description of the failure.
    pub message: String,
    /// Whether the value uses the engine's default generic exception
    /// class rather than a specific one.
    pub uses_default_class: bool,
}

impl PhpException {
    /// An exception value with the default generic exception class and
    /// the given message.
    pub fn default(message: String) -> (r: PhpException)
        ensures
            r.message == message,
            r.uses_default_class,
    {
        PhpException { message, uses_default_class: true }
    }
}

} // verus!
