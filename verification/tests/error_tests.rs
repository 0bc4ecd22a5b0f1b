use wasmedge::utils::check;
use wasmedge::error::{
    WasmEdgeError, CODE_COST_LIMIT_EXCEEDED, CODE_FAILED, CODE_FUNC_NOT_FOUND,
    CODE_FUNC_SIG_MISMATCH, CODE_INVALID_PATH, CODE_MODULE_NAME_CONFLICT, CODE_SUCCESS,
    CODE_TERMINATED, CODE_USAGE_ERROR, CODE_WRONG_INSTANCE_ADDRESS, CODE_WRONG_WORKFLOW,
};

#[test]
fn test_result() {
    let mut err: WasmEdgeError;
    err = WasmEdgeError::from_code(0);
    assert_eq!(err.code, 0);
    assert!(!err.message.is_empty());
    err = WasmEdgeError::from_code(1);
    assert_eq!(err.code, 1);
    assert!(!err.message.is_empty());
    err = WasmEdgeError::from_code(2);
    assert_eq!(err.code, 2);
    assert!(!err.message.is_empty());
}

#[test]
fn check_reports_success_and_termination_as_ok() {
    assert!(check(CODE_SUCCESS).is_ok());
    assert!(check(CODE_TERMINATED).is_ok());
    assert!(check(CODE_FAILED).is_err());
    assert!(check(CODE_WRONG_WORKFLOW).is_err());
    assert_eq!(check(CODE_FUNC_NOT_FOUND).unwrap_err().code, CODE_FUNC_NOT_FOUND);
    assert_eq!(check(CODE_FUNC_SIG_MISMATCH).unwrap_err().code, CODE_FUNC_SIG_MISMATCH);
}

#[test]
fn every_failure_code_keeps_its_category_and_a_message() {
    let codes = vec![
        CODE_FAILED,
        CODE_WRONG_WORKFLOW,
        CODE_FUNC_NOT_FOUND,
        CODE_INVALID_PATH,
        CODE_USAGE_ERROR,
        CODE_MODULE_NAME_CONFLICT,
        CODE_WRONG_INSTANCE_ADDRESS,
        CODE_FUNC_SIG_MISMATCH,
        CODE_COST_LIMIT_EXCEEDED,
    ];
    for code in codes {
        let err = WasmEdgeError::from_code(code);
        assert_eq!(err.code, code);
        assert!(!err.message.is_empty());
    }
}

#[test]
fn a_bare_message_is_a_usage_error() {
    let err = WasmEdgeError::from(String::from("something the caller got wrong"));
    assert_eq!(err.code, CODE_USAGE_ERROR);
    assert_eq!(err.message, "something the caller got wrong");
}
