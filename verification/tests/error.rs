use chat_ffi::error::{report, ErrorCodes, InterfaceError};

const CODES: ErrorCodes = ErrorCodes { null_error: 11, invalid_argument: 22, tokio_error: 33 };

#[test]
fn each_kind_has_its_code() {
    assert_eq!(CODES.code_of(&InterfaceError::NullError("a".to_string())), 11);
    assert_eq!(CODES.code_of(&InterfaceError::InvalidArgument("b".to_string())), 22);
    assert_eq!(CODES.code_of(&InterfaceError::TokioError("c".to_string())), 33);
}

#[test]
fn success_clears_the_slot() {
    let mut error: i32 = 5;
    assert_eq!(report(Ok(1u8), &mut error, &CODES), Some(1));
    assert_eq!(error, 0);
}

#[test]
fn failure_marks_the_slot() {
    let mut error: i32 = 5;
    let failed: Result<u8, InterfaceError> = Err(InterfaceError::TokioError("t".to_string()));
    assert_eq!(report(failed, &mut error, &CODES), None);
    assert_eq!(error, 33);
}
