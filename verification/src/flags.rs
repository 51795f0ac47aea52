//! Plain-value models of the host engine's flag and type-tag values that
//! error payloads carry.
//!
//! The binding layer consumes these values but does not own them: the
//! error boundary only needs their identity and a stable textual form, so
//! each is modelled here by the data it reads (a type tag, flag bits).

use crate::decimal::{dec_str, u32_to_string};
use vstd::prelude::*;
use vstd::string::StringExecFns;

verus! {

/// The dynamic type tag carried by a host engine tagged value.
#[derive(Clone, Copy, Debug, PartialEq, Eq)]
pub enum DataType {
    Undef,
    Null,
    False,
    True,
    Long,
    Double,
    Str,
    Array,
    Object,
    Resource,
    Reference,
    Callable,
    Bool,
    Mixed,
    Void,
    Ptr,
    Iterable,
}

impl DataType {
    /// The stable display name of the type tag.
    pub open spec fn name_spec(&self) -> Seq<char> {
        match self {
            DataType::Undef => "undef"@,
            DataType::Null => "null"@,
            DataType::False => "false"@,
            DataType::True => "true"@,
            DataType::Long => "int"@,
            DataType::Double => "float"@,
            DataType::Str => "string"@,
            DataType::Array => "array"@,
            DataType::Object => "object"@,
            DataType::Resource => "resource"@,
            DataType::Reference => "reference"@,
            DataType::Callable => "callable"@,
            DataType::Bool => "bool"@,
            DataType::Mixed => "mixed"@,
            DataType::Void => "void"@,
            DataType::Ptr => "pointer"@,
            DataType::Iterable => "iterable"@,
        }
    }

    /// Renders the display name of the type tag.
    pub fn name(&self) -> (r: &'static str)
        ensures
            r@ == self.name_spec(),
    {
        match self {
            DataType::Undef => "undef",
            DataType::Null => "null",
            DataType::False => "false",
            DataType::True => "true",
            DataType::Long => "int",
            DataType::Double => "float",
            DataType::Str => "string",
            DataType::Array => "array",
            DataType::Object => "object",
            DataType::Resource => "resource",
            DataType::Reference => "reference",
            DataType::Callable => "callable",
            DataType::Bool => "bool",
            DataType::Mixed => "mixed",
            DataType::Void => "void",
            DataType::Ptr => "pointer",
            DataType::Iterable => "iterable",
        }
    }
}

/// Host-engine severity bits for non-fatal diagnostics, mirroring the
/// engine's `E_*` error-level constants.
#[derive(Clone, Copy, Debug, PartialEq, Eq, Structural)]
pub struct ErrorType {
    pub bits: u32,
}

impl ErrorType {
    /// A severity value with exactly the given bits.
    pub fn from_bits(bits: u32) -> (r: ErrorType)
        ensures
            r.bits == bits,
    {
        ErrorType { bits }
    }

    /// The union of two severity values.
    pub fn union(self, other: ErrorType) -> (r: ErrorType)
        ensures
            r.bits == self.bits | other.bits,
    {
        ErrorType { bits: self.bits | other.bits }
    }

    /// A fatal run-time error.
    pub fn error() -> (r: ErrorType)
        ensures
            r.bits == 1,
    {
        ErrorType { bits: 1 }
    }

    /// A non-fatal run-time warning.
    pub fn warning() -> (r: ErrorType)
        ensures
            r.bits == 2,
    {
        ErrorType { bits: 2 }
    }

    /// A run-time notice.
    pub fn notice() -> (r: ErrorType)
        ensures
            r.bits == 8,
    {
        ErrorType { bits: 8 }
    }

    /// A user-raised error.
    pub fn user_error() -> (r: ErrorType)
        ensures
            r.bits == 256,
    {
        ErrorType { bits: 256 }
    }

    /// A user-raised warning.
    pub fn user_warning() -> (r: ErrorType)
        ensures
            r.bits == 512,
    {
        ErrorType { bits: 512 }
    }

    /// A user-raised notice.
    pub fn user_notice() -> (r: ErrorType)
        ensures
            r.bits == 1024,
    {
        ErrorType { bits: 1024 }
    }

    /// A deprecation diagnostic.
    pub fn deprecated() -> (r: ErrorType)
        ensures
            r.bits == 8192,
    {
        ErrorType { bits: 8192 }
    }

    /// A user-raised deprecation diagnostic.
    pub fn user_deprecated() -> (r: ErrorType)
        ensures
            r.bits == 16384,
    {
        ErrorType { bits: 16384 }
    }
}

/// Host-engine type-flag bits attached to a tagged value.
#[derive(Clone, Copy, Debug, PartialEq, Eq, Structural)]
pub struct ZvalTypeFlags {
    pub bits: u32,
}

impl ZvalTypeFlags {
    /// The stable debug form of the flag bits.
    pub open spec fn debug_spec(&self) -> Seq<char> {
        "ZvalTypeFlags("@ + dec_str(self.bits as nat) + ")"@
    }

    /// Renders the debug form of the flag bits.
    pub fn debug_string(&self) -> (r: String)
        ensures
            r@ == self.debug_spec(),
    {
        let mut s = String::from_str("ZvalTypeFlags(");
        let bits = u32_to_string(self.bits);
        s.append(bits.as_str());
        s.append(")");
        proof {
            assert(s@ =~= self.debug_spec());
        }
        s
    }
}

/// Host-engine class-flag bits attached to a class entry.
#[derive(Clone, Copy, Debug, PartialEq, Eq, Structural)]
pub struct ClassFlags {
    pub bits: u32,
}

impl ClassFlags {
    /// The stable debug form of the flag bits.
    pub open spec fn debug_spec(&self) -> Seq<char> {
        "ClassFlags("@ + dec_str(self.bits as nat) + ")"@
    }

    /// Renders the debug form of the flag bits.
    pub fn debug_string(&self) -> (r: String)
        ensures
            r@ == self.debug_spec(),
    {
        let mut s = String::from_str("ClassFlags(");
        let bits = u32_to_string(self.bits);
        s.append(bits.as_str());
        s.append(")");
        proof {
            assert(s@ =~= self.debug_spec());
        }
        s
    }
}

} // verus!
