//! The error channel.
use synthizer::{check_error, error_from_code, Error, ErrorKind};

#[test]
fn success_code_is_ok() {
    assert!(check_error(0, "ignored").is_ok());
}

#[test]
fn any_other_code_is_the_engine_error() {
    for code in [1, -1, 42, i32::MAX, i32::MIN] {
        let e = check_error(code, "something broke").unwrap_err();
        assert_eq!(e.code(), code);
        assert_eq!(e.message(), "something broke");
        assert!(matches!(e.get_kind(), ErrorKind::Other));
    }
}

#[test]
fn error_from_code_keeps_code_and_message() {
    let e = error_from_code(3, "bad handle");
    assert_eq!(e.code(), 3);
    assert_eq!(e.message(), "bad handle");
    let copy = e.clone();
    assert_eq!(copy.message(), "bad handle");
}

#[test]
fn local_errors_have_their_text() {
    let e = Error::rust_error("Type mismatch");
    assert_eq!(e.message(), "Type mismatch");
    assert_eq!(e.code(), 0);
    assert!(matches!(e.get_kind(), ErrorKind::Other));
}

#[test]
fn errors_describe_themselves() {
    assert_eq!(error_from_code(3, "bad handle").describe(), "Synthizer error 3: bad handle");
    assert_eq!(error_from_code(0, "").describe(), "Synthizer error 0: ");
    assert_eq!(error_from_code(-17, "x").describe(), "Synthizer error -17: x");
    assert_eq!(error_from_code(1200, "x").describe(), "Synthizer error 1200: x");
    assert_eq!(
        error_from_code(i32::MAX, "max").describe(),
        "Synthizer error 2147483647: max"
    );
    assert_eq!(
        error_from_code(i32::MIN, "min").describe(),
        "Synthizer error -2147483648: min"
    );
    assert_eq!(Error::rust_error("Type mismatch").describe(), "Synthizer error 0: Type mismatch");
}
