use zenith_core::error::ZenithError;
use zenith_core::ffi_error;

#[test]
fn test_ffi_error_codes() {
    // The boundary codes are correctly defined
    assert_eq!(ffi_error::SUCCESS, 0);
    assert_eq!(ffi_error::NULL_POINTER, -1);
    assert_eq!(ffi_error::BUFFER_FULL, -2);
    assert_eq!(ffi_error::PANIC, -3);
    assert_eq!(ffi_error::FFI_ERROR, -4);
    assert_eq!(ffi_error::INIT_FAILED, -5);

    // All error codes are distinct negative numbers
    assert!(ffi_error::NULL_POINTER < 0);
    assert!(ffi_error::BUFFER_FULL < 0);
    assert!(ffi_error::PANIC < 0);
    assert!(ffi_error::FFI_ERROR < 0);
    assert!(ffi_error::INIT_FAILED < 0);
}

#[test]
fn test_publish_code_mapping() {
    assert_eq!(ffi_error::publish_code(&Ok(())), ffi_error::SUCCESS);
    assert_eq!(ffi_error::publish_code(&Err(ZenithError::BufferFull)), ffi_error::BUFFER_FULL);
}

#[test]
fn test_load_plugin_code_mapping() {
    assert_eq!(ffi_error::load_plugin_code(&Ok(())), ffi_error::SUCCESS);
    assert_eq!(
        ffi_error::load_plugin_code(&Err(ZenithError::WasmBadMagic)),
        ffi_error::BUFFER_FULL
    );
}
