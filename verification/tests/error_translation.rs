use gphoto::error::{
    check, from_libgphoto2, kind_from_code, GP_ERROR_BAD_PARAMETERS, GP_ERROR_CORRUPTED_DATA,
    GP_ERROR_FILE_EXISTS, GP_ERROR_NOT_SUPPORTED, GP_ERROR_NO_MEMORY, GP_ERROR_UNKNOWN_PORT, GP_OK,
};
use gphoto::{Error, ErrorKind};

#[test]
fn native_codes_have_the_documented_values() {
    assert_eq!(GP_OK, 0);
    assert_eq!(GP_ERROR_BAD_PARAMETERS, -2);
    assert_eq!(GP_ERROR_NO_MEMORY, -3);
    assert_eq!(GP_ERROR_UNKNOWN_PORT, -5);
    assert_eq!(GP_ERROR_NOT_SUPPORTED, -6);
    assert_eq!(GP_ERROR_CORRUPTED_DATA, -102);
    assert_eq!(GP_ERROR_FILE_EXISTS, -103);
}

#[test]
fn bad_parameters_code_gives_bad_parameters() {
    let e = from_libgphoto2(-2);
    assert_eq!(e.kind(), ErrorKind::BadParameters);
    assert_eq!(e.code(), -2);
    assert_eq!(*e.message(), None);
}

#[test]
fn file_exists_code_gives_file_exists() {
    assert_eq!(from_libgphoto2(-103).kind(), ErrorKind::FileExists);
    assert_eq!(from_libgphoto2(-103).code(), -103);
}

#[test]
fn not_supported_code_gives_not_supported() {
    assert_eq!(from_libgphoto2(-6).kind(), ErrorKind::NotSupported);
}

#[test]
fn corrupted_data_code_gives_corrupted_data() {
    assert_eq!(from_libgphoto2(-102).kind(), ErrorKind::CorruptedData);
}

#[test]
fn unknown_port_code_gives_not_found() {
    assert_eq!(from_libgphoto2(-5).kind(), ErrorKind::NotFound);
}

#[test]
fn other_codes_give_io_failure_with_the_code() {
    for code in [-1, -3, -4, -7, -8, -10, -20, -53, -70, -105, -108, -110, -115, -9999, i32::MIN] {
        let e = from_libgphoto2(code);
        assert_eq!(e.kind(), ErrorKind::IoFailure, "code {}", code);
        assert_eq!(e.code(), code);
        assert_eq!(kind_from_code(code), ErrorKind::IoFailure);
    }
}

#[test]
fn check_accepts_every_non_negative_status() {
    assert!(check(0).is_ok());
    assert!(check(1).is_ok());
    assert!(check(17).is_ok());
    assert!(check(i32::MAX).is_ok());
}

#[test]
fn check_turns_a_negative_status_into_its_error() {
    let e = check(-7).unwrap_err();
    assert_eq!(e.kind(), ErrorKind::IoFailure);
    assert_eq!(e.code(), -7);
    assert_eq!(*e.message(), None);
    let e = check(-6).unwrap_err();
    assert_eq!(e, from_libgphoto2(-6));
    assert_eq!(check(-1).unwrap_err().code(), -1);
}

#[test]
fn an_error_keeps_kind_and_code_when_a_message_is_attached() {
    let e = Error::new(ErrorKind::NotFound, -2).with_message(Some(String::from("no such entry")));
    assert_eq!(e.kind(), ErrorKind::NotFound);
    assert_eq!(e.code(), -2);
    assert_eq!(e.message().as_deref(), Some("no such entry"));
    let bare = e.with_message(None);
    assert_eq!(*bare.message(), None);
    assert_eq!(bare.kind(), ErrorKind::NotFound);
}
