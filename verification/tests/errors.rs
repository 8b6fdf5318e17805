use wgc::{ConfigError, WgcError};

#[test]
fn platform_error_keeps_the_code_of_the_failure() {
    let failure = windows::core::Error::from_hresult(windows::core::HRESULT(-2147467259));
    assert_eq!(WgcError::from_platform(&failure), WgcError::Platform(-2147467259));
    let other = windows::core::Error::from_hresult(windows::core::HRESULT(-7));
    assert_eq!(WgcError::from_platform(&other), WgcError::Platform(-7));
}

#[test]
fn win32_access_denied_becomes_its_hresult() {
    assert_eq!(WgcError::from_win32(5), WgcError::Platform(0x8007_0005u32 as i32));
    assert_eq!(WgcError::from_win32(5), WgcError::Platform(-2147024891));
}

#[test]
fn win32_code_keeps_only_its_low_sixteen_bits() {
    assert_eq!(WgcError::from_win32(0x0001_0002), WgcError::Platform(0x8007_0002u32 as i32));
    assert_eq!(WgcError::from_win32(0xFFFF), WgcError::Platform(0x8007_FFFFu32 as i32));
    assert_eq!(WgcError::from_win32(0x7FFF_FFFF), WgcError::Platform(0x8007_FFFFu32 as i32));
    assert_eq!(WgcError::from_win32(1), WgcError::Platform(0x8007_0001u32 as i32));
}

#[test]
fn win32_zero_stays_zero() {
    assert_eq!(WgcError::from_win32(0), WgcError::Platform(0));
}

#[test]
fn win32_code_with_top_bit_is_taken_as_it_is() {
    assert_eq!(WgcError::from_win32(0x8000_4005), WgcError::Platform(0x8000_4005u32 as i32));
    assert_eq!(WgcError::from_win32(0x8000_0000), WgcError::Platform(i32::MIN));
    assert_eq!(WgcError::from_win32(u32::MAX), WgcError::Platform(-1));
}

#[test]
fn dismissed_picker_is_no_item_selected() {
    assert_eq!(WgcError::from_pick_failure(0), WgcError::NoItemSelected);
}

#[test]
fn failed_picker_is_a_platform_error() {
    assert_eq!(WgcError::from_pick_failure(-2147467259), WgcError::Platform(-2147467259));
    assert_eq!(WgcError::from_pick_failure(1), WgcError::Platform(1));
}

#[test]
fn empty_binding_error_reads_as_dismissed_picker() {
    let code = windows::core::Error::empty().code().0;
    assert_eq!(WgcError::from_pick_failure(code), WgcError::NoItemSelected);
}

#[test]
fn only_platform_errors_have_a_code() {
    assert_eq!(WgcError::Platform(-3).code(), Some(-3));
    assert_eq!(WgcError::NoItemSelected.code(), None);
    assert_eq!(WgcError::Config(ConfigError::FrameQueueLength).code(), None);
}
