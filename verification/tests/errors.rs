use php_errors::decimal::{u32_to_string, u64_to_string, usize_to_string};
use php_errors::diagnostics::php_error;
use php_errors::error::{c_string_bytes, i64_to_i32, Error, PhpResult};
use php_errors::exception::ZendObjectHandle;
use php_errors::flags::{ClassFlags, DataType, ErrorType, ZvalTypeFlags};

#[test]
fn decimal_rendering() {
    assert_eq!(u64_to_string(0), "0");
    assert_eq!(u64_to_string(7), "7");
    assert_eq!(u64_to_string(10), "10");
    assert_eq!(u64_to_string(255), "255");
    assert_eq!(u64_to_string(18446744073709551615), "18446744073709551615");
    assert_eq!(u32_to_string(4294967295), "4294967295");
    assert_eq!(usize_to_string(12345), "12345");
}

#[test]
fn incorrect_arguments_message() {
    let e = Error::IncorrectArguments(1, 3);
    assert_eq!(e.message(), "Expected at least 3 arguments, got 1 arguments.");
}

#[test]
fn zval_conversion_message() {
    let e = Error::ZvalConversion(DataType::Long);
    assert_eq!(
        e.message(),
        "Could not convert Zval from type int into primitive type."
    );
    let e = Error::ZvalConversion(DataType::Str);
    assert_eq!(
        e.message(),
        "Could not convert Zval from type string into primitive type."
    );
}

#[test]
fn unknown_datatype_message() {
    let e = Error::UnknownDatatype(255);
    assert_eq!(e.message(), "Unknown datatype 255.");
}

#[test]
fn invalid_type_to_datatype_message() {
    let e = Error::InvalidTypeToDatatype(ZvalTypeFlags { bits: 1024 });
    assert_eq!(
        e.message(),
        "Type flags did not contain a datatype: ZvalTypeFlags(1024)"
    );
}

#[test]
fn plain_variant_messages() {
    assert_eq!(Error::InvalidScope.message(), "Invalid scope.");
    assert_eq!(Error::InvalidPointer.message(), "Invalid pointer.");
    assert_eq!(
        Error::InvalidProperty.message(),
        "Property does not exist on object."
    );
    assert_eq!(
        Error::InvalidCString.message(),
        "String given contains NUL-bytes which cannot be present in a C string."
    );
    assert_eq!(Error::InvalidUtf8.message(), "Invalid Utf8 byte sequence.");
    assert_eq!(Error::Callable.message(), "Could not call given function.");
    assert_eq!(Error::Object.message(), "An object was expected.");
    assert_eq!(
        Error::IntegerOverflow.message(),
        "Converting integer arguments resulted in an overflow."
    );
    assert_eq!(
        Error::StreamWrapperRegistrationFailure.message(),
        "A failure occurred while registering the stream wrapper"
    );
    assert_eq!(
        Error::StreamWrapperUnregistrationFailure.message(),
        "A failure occurred while unregistering the stream wrapper"
    );
}

#[test]
fn invalid_exception_message() {
    let e = Error::InvalidException(ClassFlags { bits: 66 });
    assert_eq!(
        e.message(),
        "Invalid exception type was thrown: ClassFlags(66)"
    );
}

#[test]
fn exception_variant_message() {
    let handle = ZendObjectHandle::new(String::from("ZendObject { class: \"Exception\" }"));
    let e = Error::Exception(handle);
    assert_eq!(
        e.message(),
        "Exception was thrown: ZendObject { class: \"Exception\" }"
    );
}

#[test]
fn rendering_is_deterministic() {
    let a = Error::IncorrectArguments(2, 5).message();
    let b = Error::IncorrectArguments(2, 5).message();
    assert_eq!(a, b);
}

#[test]
fn rendering_leaves_payload_untouched() {
    let e = Error::UnknownDatatype(42);
    let first = e.message();
    let second = e.message();
    assert_eq!(first, "Unknown datatype 42.");
    assert_eq!(second, "Unknown datatype 42.");
    assert!(matches!(e, Error::UnknownDatatype(42)));
}

#[test]
fn c_string_rejects_nul_anywhere() {
    assert!(matches!(c_string_bytes(b"\0foo"), Err(Error::InvalidCString)));
    assert!(matches!(c_string_bytes(b"fo\0o"), Err(Error::InvalidCString)));
    assert!(matches!(c_string_bytes(b"foo\0"), Err(Error::InvalidCString)));
    assert!(matches!(c_string_bytes(b"\0"), Err(Error::InvalidCString)));
}

#[test]
fn c_string_terminates_clean_bytes() {
    let r = c_string_bytes(b"foo");
    assert!(matches!(&r, Ok(v) if v.as_slice() == b"foo\0"));
    let r = c_string_bytes(b"");
    assert!(matches!(&r, Ok(v) if v.as_slice() == b"\0"));
}

#[test]
fn integer_narrowing_overflow_both_signs() {
    assert!(matches!(i64_to_i32(2147483648), Err(Error::IntegerOverflow)));
    assert!(matches!(
        i64_to_i32(-2147483649),
        Err(Error::IntegerOverflow)
    ));
    assert!(matches!(i64_to_i32(9223372036854775807), Err(Error::IntegerOverflow)));
    assert_eq!(i64_to_i32(2147483647).unwrap(), 2147483647);
    assert_eq!(i64_to_i32(-2147483648).unwrap(), -2147483648);
    assert_eq!(i64_to_i32(0).unwrap(), 0);
}

#[test]
fn egress_converts_every_variant() {
    let errors: Vec<Error> = vec![
        Error::IncorrectArguments(1, 3),
        Error::ZvalConversion(DataType::Bool),
        Error::UnknownDatatype(9),
        Error::InvalidTypeToDatatype(ZvalTypeFlags { bits: 3 }),
        Error::InvalidScope,
        Error::InvalidPointer,
        Error::InvalidProperty,
        Error::InvalidCString,
        Error::InvalidUtf8,
        Error::Callable,
        Error::Object,
        Error::InvalidException(ClassFlags { bits: 1 }),
        Error::IntegerOverflow,
        Error::Exception(ZendObjectHandle::new(String::from("obj"))),
        Error::StreamWrapperRegistrationFailure,
        Error::StreamWrapperUnregistrationFailure,
    ];
    for e in errors {
        let message = e.message();
        let exception = e.into_exception();
        assert!(exception.uses_default_class);
        assert_eq!(exception.message, message);
    }
}

#[test]
fn egress_consumes_exception_variant_once() {
    let handle = ZendObjectHandle::new(String::from("thrown"));
    let e = Error::Exception(handle);
    let exception = e.into_exception();
    assert_eq!(exception.message, "Exception was thrown: thrown");
    assert!(exception.uses_default_class);
}

#[test]
fn original_thrown_object_can_be_extracted() {
    let handle = ZendObjectHandle::new(String::from("original"));
    let e = Error::Exception(handle);
    let extracted = e.into_exception_object();
    assert!(matches!(&extracted, Ok(h) if h.debug_repr == "original"));

    let e = Error::InvalidScope;
    let back: PhpResult<ZendObjectHandle> = e.into_exception_object();
    assert!(matches!(back, Err(Error::InvalidScope)));
}

#[test]
fn diagnostic_skipped_on_embedded_nul() {
    let severity = ErrorType::warning();
    assert!(php_error(&severity, "fo\0o").is_none());
    assert!(php_error(&severity, "\0").is_none());
}

#[test]
fn diagnostic_request_carries_severity_and_bytes() {
    let severity = ErrorType::notice();
    let req = php_error(&severity, "something happened").unwrap();
    assert_eq!(req.severity, 8);
    assert_eq!(req.message.as_slice(), b"something happened\0");
}

#[test]
fn deprecated_foo_emits_one_diagnostic() {
    let severity = ErrorType::deprecated();
    let req = php_error(&severity, "foo").unwrap();
    assert_eq!(req.severity, 8192);
    assert_eq!(req.message.as_slice(), b"foo\0");
}

#[test]
fn severity_constants_and_union() {
    assert_eq!(ErrorType::error().bits, 1);
    assert_eq!(ErrorType::warning().bits, 2);
    assert_eq!(ErrorType::notice().bits, 8);
    assert_eq!(ErrorType::user_error().bits, 256);
    assert_eq!(ErrorType::user_warning().bits, 512);
    assert_eq!(ErrorType::user_notice().bits, 1024);
    assert_eq!(ErrorType::deprecated().bits, 8192);
    assert_eq!(ErrorType::user_deprecated().bits, 16384);
    assert_eq!(ErrorType::from_bits(12).bits, 12);
    let combined = ErrorType::warning().union(ErrorType::notice());
    assert_eq!(combined.bits, 10);
}

#[test]
fn datatype_names() {
    assert_eq!(DataType::Undef.name(), "undef");
    assert_eq!(DataType::Null.name(), "null");
    assert_eq!(DataType::False.name(), "false");
    assert_eq!(DataType::True.name(), "true");
    assert_eq!(DataType::Long.name(), "int");
    assert_eq!(DataType::Double.name(), "float");
    assert_eq!(DataType::Str.name(), "string");
    assert_eq!(DataType::Array.name(), "array");
    assert_eq!(DataType::Object.name(), "object");
    assert_eq!(DataType::Resource.name(), "resource");
    assert_eq!(DataType::Reference.name(), "reference");
    assert_eq!(DataType::Callable.name(), "callable");
    assert_eq!(DataType::Bool.name(), "bool");
    assert_eq!(DataType::Mixed.name(), "mixed");
    assert_eq!(DataType::Void.name(), "void");
    assert_eq!(DataType::Ptr.name(), "pointer");
    assert_eq!(DataType::Iterable.name(), "iterable");
}
