//! Tests for the parts of the bridge that run without an embedded virtual
//! machine: the level-to-method-name mapping and the error adapter.

use java_logger::{adapt, Error, LogLevel};

#[test]
fn method_names_match_levels() {
    assert_eq!(LogLevel::Error.method_name(), "error");
    assert_eq!(LogLevel::Warn.method_name(), "warn");
    assert_eq!(LogLevel::Info.method_name(), "info");
    assert_eq!(LogLevel::Debug.method_name(), "debug");
}

#[test]
fn levels_compare_by_variant() {
    assert_eq!(LogLevel::Info, LogLevel::Info);
    assert_ne!(LogLevel::Info, LogLevel::Debug);
    let copy = LogLevel::Warn;
    assert_eq!(copy, LogLevel::Warn);
}

#[test]
fn adapt_passes_success_through() {
    let r: Result<u32, jni::errors::Error> = Ok(7);
    assert!(matches!(adapt(r), Ok(7)));
    let s: Result<&str, jni::errors::Error> = Ok("hello");
    assert!(matches!(adapt(s), Ok("hello")));
}

#[test]
fn adapt_wraps_java_exception() {
    let r: Result<(), jni::errors::Error> = Err(jni::errors::Error::JavaException);
    let out = adapt(r);
    assert!(matches!(
        out,
        Err(Error::RuntimeCallFailed(jni::errors::Error::JavaException))
    ));
}

#[test]
fn adapt_preserves_the_cause() {
    let r: Result<(), jni::errors::Error> = Err(jni::errors::Error::NullPtr("FindClass"));
    match adapt(r) {
        Err(Error::RuntimeCallFailed(jni::errors::Error::NullPtr(what))) => {
            assert_eq!(what, "FindClass");
        }
        _ => panic!("expected a RuntimeCallFailed with the original cause"),
    }

    let m: Result<(), jni::errors::Error> = Err(jni::errors::Error::MethodNotFound {
        name: "info".to_string(),
        sig: "(Ljava/lang/Object;)V".to_string(),
    });
    match adapt(m) {
        Err(Error::RuntimeCallFailed(jni::errors::Error::MethodNotFound { name, sig })) => {
            assert_eq!(name, "info");
            assert_eq!(sig, "(Ljava/lang/Object;)V");
        }
        _ => panic!("expected a RuntimeCallFailed with the original cause"),
    }
}

#[test]
fn error_message_is_fixed() {
    let out = adapt::<()>(Err(jni::errors::Error::JavaException));
    match out {
        Err(e) => assert_eq!(e.message(), "JNI call failed"),
        Ok(()) => panic!("expected an error"),
    }
}

#[test]
fn every_adapted_error_is_the_single_kind() {
    let causes: Vec<jni::errors::Error> = vec![
        jni::errors::Error::JavaException,
        jni::errors::Error::InvalidCtorReturn,
        jni::errors::Error::NullDeref("CallVoidMethodA"),
        jni::errors::Error::TryLock,
    ];
    for cause in causes {
        let out = adapt::<()>(Err(cause));
        assert!(matches!(out, Err(Error::RuntimeCallFailed(_))));
    }
}
