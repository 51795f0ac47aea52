//! The closed error taxonomy of the binding layer, its rendering to
//! stable messages, and its conversions: native failures in (ingest),
//! host-visible exception values out (egress).

use crate::decimal::{dec_str, u32_to_string, usize_to_string};
use crate::exception::{PhpException, ZendObjectHandle};
use crate::flags::{ClassFlags, DataType, ZvalTypeFlags};
use vstd::prelude::*;
use vstd::slice::slice_to_vec;
use vstd::string::StringExecFns;

verus! {

/// The outcome type of every fallible binding operation.
pub type PhpResult<T, E = Error> = Result<T, E>;

/// The failure value passed through [`PhpResult`] by every binding
/// operation.
///
/// Exactly one variant is active per value. Every variant is plain data
/// except [`Error::Exception`], which uniquely owns the handle to a
/// thrown host object; the value is therefore moved, never copied.
#[derive(Debug)]
#[non_exhaustive]
pub enum Error {
    /// An incorrect number of arguments was given to a PHP function.
    ///
    /// Carries the number of arguments received and the minimum number
    /// expected, in that order.
    IncorrectArguments(usize, usize),
    /// A tagged value could not be converted into a primitive type.
    ///
    /// Carries the data type of the tagged value.
    ZvalConversion(DataType),
    /// The type tag of a tagged value is not recognized.
    ///
    /// Carries the raw integer form of the tag.
    UnknownDatatype(u32),
    /// Type-flag bits did not encode a data type.
    ///
    /// Carries the flag bits whose conversion was attempted.
    InvalidTypeToDatatype(ZvalTypeFlags),
    /// A class-scoped operation was invoked outside a bound class scope.
    InvalidScope,
    /// A native pointer was null or otherwise unusable.
    InvalidPointer,
    /// The named property does not exist on the target object.
    InvalidProperty,
    /// A string holds an embedded NUL byte and cannot cross the native
    /// string boundary.
    InvalidCString,
    /// A native byte sequence is not valid Unicode text.
    InvalidUtf8,
    /// A callable could not be invoked.
    Callable,
    /// An object was required but not supplied.
    Object,
    /// The class used as an exception type is not throwable.
    ///
    /// Carries the class-flag bits of the offending class.
    InvalidException(ClassFlags),
    /// A conversion between integer widths overflowed.
    IntegerOverflow,
    /// A host-engine exception was thrown; its object is carried as the
    /// payload.
    Exception(ZendObjectHandle),
    /// Registering a stream wrapper with the host engine failed.
    StreamWrapperRegistrationFailure,
    /// Unregistering a stream wrapper failed.
    StreamWrapperUnregistrationFailure,
}

impl Error {
    /// The stable human-readable message of the error: one template per
    /// variant, payloads interpolated verbatim.
    pub open spec fn message_spec(&self) -> Seq<char> {
        match self {
            Error::IncorrectArguments(n, expected) => "Expected at least "@ + dec_str(
                *expected as nat,
            ) + " arguments, got "@ + dec_str(*n as nat) + " arguments."@,
            Error::ZvalConversion(ty) => "Could not convert Zval from type "@ + ty.name_spec()
                + " into primitive type."@,
            Error::UnknownDatatype(dt) => "Unknown datatype "@ + dec_str(*dt as nat) + "."@,
            Error::InvalidTypeToDatatype(dt) => "Type flags did not contain a datatype: "@
                + dt.debug_spec(),
            Error::InvalidScope => "Invalid scope."@,
            Error::InvalidPointer => "Invalid pointer."@,
            Error::InvalidProperty => "Property does not exist on object."@,
            Error::InvalidCString => "String given contains NUL-bytes which cannot be present in a C string."@,
            Error::InvalidUtf8 => "Invalid Utf8 byte sequence."@,
            Error::Callable => "Could not call given function."@,
            Error::Object => "An object was expected."@,
            Error::InvalidException(flags) => "Invalid exception type was thrown: "@
                + flags.debug_spec(),
            Error::IntegerOverflow => "Converting integer arguments resulted in an overflow."@,
            Error::Exception(e) => "Exception was thrown: "@ + e.debug_repr@,
            Error::StreamWrapperRegistrationFailure => "A failure occurred while registering the stream wrapper"@,
            Error::StreamWrapperUnregistrationFailure => "A failure occurred while unregistering the stream wrapper"@,
        }
    }

    /// Renders the error to its message.
    ///
    /// Rendering is total and pure: it is a function of the error value
    /// alone, so equal values always render to the same message, and it
    /// only inspects the payload — a carried exception object is read,
    /// never consumed.
    pub fn message(&self) -> (r: String)
        ensures
            r@ == self.message_spec(),
    {
        match self {
            Error::IncorrectArguments(n, expected) => {
                let mut s = String::from_str("Expected at least ");
                let expected_str = usize_to_string(*expected);
                s.append(expected_str.as_str());
                s.append(" arguments, got ");
                let n_str = usize_to_string(*n);
                s.append(n_str.as_str());
                s.append(" arguments.");
                proof {
                    assert(s@ =~= self.message_spec());
                }
                s
            },
            Error::ZvalConversion(ty) => {
                let mut s = String::from_str("Could not convert Zval from type ");
                s.append(ty.name());
                s.append(" into primitive type.");
                proof {
                    assert(s@ =~= self.message_spec());
                }
                s
            },
            Error::UnknownDatatype(dt) => {
                let mut s = String::from_str("Unknown datatype ");
                let dt_str = u32_to_string(*dt);
                s.append(dt_str.as_str());
                s.append(".");
                proof {
                    assert(s@ =~= self.message_spec());
                }
                s
            },
            Error::InvalidTypeToDatatype(dt) => {
                let mut s = String::from_str("Type flags did not contain a datatype: ");
                let flags_str = dt.debug_string();
                s.append(flags_str.as_str());
                proof {
                    assert(s@ =~= self.message_spec());
                }
                s
            },
            Error::InvalidScope => String::from_str("Invalid scope."),
            Error::InvalidPointer => String::from_str("Invalid pointer."),
            Error::InvalidProperty => String::from_str("Property does not exist on object."),
            Error::InvalidCString => String::from_str(
                "String given contains NUL-bytes which cannot be present in a C string.",
            ),
            Error::InvalidUtf8 => String::from_str("Invalid Utf8 byte sequence."),
            Error::Callable => String::from_str("Could not call given function."),
            Error::Object => String::from_str("An object was expected."),
            Error::InvalidException(flags) => {
                let mut s = String::from_str("Invalid exception type was thrown: ");
                let flags_str = flags.debug_string();
                s.append(flags_str.as_str());
                proof {
                    assert(s@ =~= self.message_spec());
                }
                s
            },
            Error::IntegerOverflow => String::from_str(
                "Converting integer arguments resulted in an overflow.",
            ),
            Error::Exception(e) => {
                let mut s = String::from_str("Exception was thrown: ");
                s.append(e.debug_repr.as_str());
                proof {
                    assert(s@ =~= self.message_spec());
                }
                s
            },
            Error::StreamWrapperRegistrationFailure => String::from_str(
                "A failure occurred while registering the stream wrapper",
            ),
            Error::StreamWrapperUnregistrationFailure => String::from_str(
                "A failure occurred while unregistering the stream wrapper",
            ),
        }
    }

    /// Egress conversion: consumes the error and builds the host-visible
    /// exception value that reports it, using the default generic
    /// exception class and the rendered message as its description.
    ///
    /// The conversion is total: every variant converts, the `Exception`
    /// variant included — its carried object is rendered into the
    /// message, not re-thrown. Callers that must re-propagate the
    /// original thrown object intact use [`Error::into_exception_object`]
    /// instead.
    pub fn into_exception(self) -> (r: PhpException)
        ensures
            r.message@ == self.message_spec(),
            r.uses_default_class,
    {
        let message = self.message();
        PhpException::default(message)
    }

    /// Extracts the original thrown host object when the error carries
    /// one, handing its unique ownership to the caller; any other variant
    /// is returned unchanged.
    pub fn into_exception_object(self) -> (r: PhpResult<ZendObjectHandle>)
        ensures
            r == (match self {
                Error::Exception(o) => Ok::<ZendObjectHandle, Error>(o),
                _ => Err::<ZendObjectHandle, Error>(self),
            }),
    {
        match self {
            Error::Exception(o) => Ok(o),
            other => Err(other),
        }
    }
}

/// Whether the byte sequence holds an embedded NUL byte.
pub open spec fn has_nul_byte(bytes: Seq<u8>) -> bool {
    exists|i: int| 0 <= i < bytes.len() && bytes[i] == 0
}

/// Ingest conversion for native string construction: builds the
/// NUL-terminated byte form that crosses the native string boundary, or
/// the [`Error::InvalidCString`] error when the bytes hold an embedded
/// NUL — always that variant, wherever the NUL occurs.
pub fn c_string_bytes(bytes: &[u8]) -> (r: PhpResult<Vec<u8>>)
    ensures
        match r {
            Ok(v) => !has_nul_byte(bytes@) && v@ == bytes@ + seq![0u8],
            Err(e) => has_nul_byte(bytes@) && e == Error::InvalidCString,
        },
{
    let n = bytes.len();
    let mut i: usize = 0;
    while i < n
        invariant
            n == bytes@.len(),
            i <= n,
            forall|j: int| 0 <= j < i ==> bytes@[j] != 0,
        decreases n - i,
    {
        if bytes[i] == 0 {
            return Err(Error::InvalidCString);
        }
        i += 1;
    }
    let mut v = slice_to_vec(bytes);
    v.push(0);
    proof {
        assert(v@ =~= bytes@ + seq![0u8]);
    }
    Ok(v)
}

/// Ingest conversion for integer narrowing: the value unchanged when it
/// fits the target width, or the [`Error::IntegerOverflow`] error when
/// the conversion is out of range — always that variant, whatever the
/// sign or magnitude of the overflow.
pub fn i64_to_i32(value: i64) -> (r: PhpResult<i32>)
    ensures
        match r {
            Ok(v) => i32::MIN <= value <= i32::MAX && v == value as i32,
            Err(e) => (value < i32::MIN || value > i32::MAX) && e == Error::IntegerOverflow,
        },
{
    if value < i32::MIN as i64 || value > i32::MAX as i64 {
        Err(Error::IntegerOverflow)
    } else {
        Ok(value as i32)
    }
}

} // verus!
