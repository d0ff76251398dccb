use credential_locker::outcome::{
    code_is_not_found, interpret_delete, interpret_read, interpret_store, OsError,
};

// The system's numeric code for a missing element, and the same code in the
// wrapped result-handle form in which the vault API reports it.
const NOT_FOUND_WIN32: i32 = 1168;
const NOT_FOUND_HRESULT: i32 = -2147023728;

fn os_error(code: i32, message: &str) -> OsError {
    OsError {
        code,
        message: message.to_string(),
    }
}

#[test]
fn not_found_codes_are_recognized() {
    assert!(code_is_not_found(NOT_FOUND_WIN32));
    assert!(code_is_not_found(NOT_FOUND_HRESULT));
    assert!(!code_is_not_found(0));
    assert!(!code_is_not_found(5));
}

#[test]
fn store_success_passes_through() {
    assert_eq!(interpret_store(Ok(())), Ok(()));
}

#[test]
fn store_failure_carries_diagnostic() {
    let outcome = interpret_store(Err(os_error(5, "Access is denied.")));
    assert_eq!(
        outcome,
        Err("Failed to store API key in Windows Credential Locker: Access is denied.".to_string())
    );
}

#[test]
fn delete_success_passes_through() {
    assert_eq!(interpret_delete(Ok(())), Ok(()));
}

#[test]
fn delete_not_found_counts_as_success() {
    assert_eq!(
        interpret_delete(Err(os_error(NOT_FOUND_WIN32, "Element not found."))),
        Ok(())
    );
    assert_eq!(
        interpret_delete(Err(os_error(NOT_FOUND_HRESULT, "Element not found."))),
        Ok(())
    );
}

#[test]
fn delete_other_failure_carries_diagnostic() {
    let outcome = interpret_delete(Err(os_error(5, "Access is denied.")));
    assert_eq!(
        outcome,
        Err("Failed to delete API key from Windows Credential Locker: Access is denied.".to_string())
    );
}

#[test]
fn read_null_record_is_not_found() {
    assert_eq!(interpret_read(Ok(None)), Ok(None));
}

#[test]
fn read_not_found_error_is_not_found() {
    assert_eq!(
        interpret_read(Err(os_error(NOT_FOUND_WIN32, "Element not found."))),
        Ok(None)
    );
    assert_eq!(
        interpret_read(Err(os_error(NOT_FOUND_HRESULT, "Element not found."))),
        Ok(None)
    );
}

#[test]
fn read_valid_bytes_decode_to_text() {
    let bytes = "sk-test-123".as_bytes().to_vec();
    assert_eq!(
        interpret_read(Ok(Some(bytes))),
        Ok(Some("sk-test-123".to_string()))
    );
}

#[test]
fn read_invalid_bytes_are_decode_failure() {
    let outcome = interpret_read(Ok(Some(vec![0xC3, 0x28])));
    let message = outcome.expect_err("bytes that are not UTF-8 must fail to decode");
    assert!(message.starts_with("Failed to decode API key from UTF-8: "));
}

#[test]
fn read_other_failure_carries_diagnostic() {
    let outcome = interpret_read(Err(os_error(1326, "The user name or password is incorrect.")));
    assert_eq!(
        outcome,
        Err(
            "Failed to read API key from Windows Credential Locker: The user name or password is incorrect."
                .to_string()
        )
    );
}
