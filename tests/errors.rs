use tarantool::error::{TarantoolError, TarantoolErrorCode, TransactionError, KNOWN_CODES};
use tarantool::ffi::has_decimal;

#[test]
fn codes_map_both_ways() {
    assert_eq!(TarantoolErrorCode::from_u32(0), Some(TarantoolErrorCode::Unknown));
    assert_eq!(TarantoolErrorCode::from_u32(3), Some(TarantoolErrorCode::TupleFound));
    assert_eq!(TarantoolErrorCode::from_u32(78), Some(TarantoolErrorCode::Timeout));
    assert_eq!(TarantoolErrorCode::from_u32(201), Some(TarantoolErrorCode::BootstrapReadonly));
    assert_eq!(TarantoolErrorCode::from_u32(202), None);
    assert_eq!(TarantoolErrorCode::from_u32(u32::MAX), None);
    assert_eq!(TarantoolErrorCode::Timeout.to_u32(), 78);
    assert_eq!(TarantoolErrorCode::NoSuchSpace.to_u32(), 36);
    for n in 0..KNOWN_CODES {
        assert_eq!(TarantoolErrorCode::from_u32(n).map(|c| c.to_u32()), Some(n));
    }
}

#[test]
fn last_error_keeps_code_and_message() {
    let e = TarantoolError::last(36, String::from("Space 'x' does not exist"), String::from("ClientError"));
    assert_eq!(e.error_code(), TarantoolErrorCode::NoSuchSpace);
    assert_eq!(e.message(), "Space 'x' does not exist");
    assert_eq!(e.error_type(), "ClientError");
}

#[test]
fn last_error_with_unknown_code() {
    let e = TarantoolError::last(9999, String::from("odd"), String::from("SystemError"));
    assert_eq!(e.error_code(), TarantoolErrorCode::Unknown);
    assert_eq!(e.message(), "odd");
    assert_eq!(e.error_type(), "SystemError");
}

#[test]
fn maybe_last_without_error() {
    assert!(TarantoolError::maybe_last(None).is_ok());
}

#[test]
fn maybe_last_with_error() {
    match TarantoolError::maybe_last(Some((42, String::from("denied"), String::from("AccessDeniedError")))) {
        Ok(()) => panic!("an error was set"),
        Err(e) => {
            assert_eq!(e.error_code(), TarantoolErrorCode::AccessDenied);
            assert_eq!(e.message(), "denied");
            assert_eq!(e.error_type(), "AccessDeniedError");
        }
    }
}

#[test]
fn transaction_error_texts() {
    assert_eq!(TransactionError::AlreadyStarted.description(), "Transaction has already been started");
    assert_eq!(TransactionError::FailedToCommit.description(), "Failed to commit");
    assert_eq!(TransactionError::FailedToRollback.description(), "Failed to rollback");
}

#[test]
fn decimal_support_is_reported() {
    assert!(has_decimal());
}
