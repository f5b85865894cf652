use fs_stat::{Error, ErrorKind};

#[test]
fn missing_entry_is_not_found() {
    let error = Error::Os { code: libc::ENOENT };
    assert_eq!(error.kind(), ErrorKind::NotFound);
    assert_eq!(error.raw_os_error(), Some(libc::ENOENT));
}

#[test]
fn refused_access_is_permission_denied() {
    let error = Error::Os { code: libc::EACCES };
    assert_eq!(error.kind(), ErrorKind::PermissionDenied);
    assert_eq!(error.raw_os_error(), Some(libc::EACCES));
}

#[test]
fn refused_operation_is_permission_denied() {
    let error = Error::Os { code: libc::EPERM };
    assert_eq!(error.kind(), ErrorKind::PermissionDenied);
    assert_eq!(error.raw_os_error(), Some(libc::EPERM));
}

#[test]
fn invalid_argument_is_invalid_input_with_os_code() {
    let error = Error::Os { code: libc::EINVAL };
    assert_eq!(error.kind(), ErrorKind::InvalidInput);
    assert_eq!(error.raw_os_error(), Some(libc::EINVAL));
}

#[test]
fn bad_descriptor_is_other() {
    let error = Error::Os { code: libc::EBADF };
    assert_eq!(error.kind(), ErrorKind::Other);
    assert_eq!(error.raw_os_error(), Some(libc::EBADF));
}

#[test]
fn long_name_link_loop_and_io_failure_are_other() {
    for code in [libc::ENAMETOOLONG, libc::ELOOP, libc::EIO, libc::ENOTDIR, libc::ENOMEM] {
        let error = Error::Os { code };
        assert_eq!(error.kind(), ErrorKind::Other);
        assert_eq!(error.raw_os_error(), Some(code));
    }
}

#[test]
fn kind_is_the_standard_library_kind() {
    for code in -2..200 {
        let expected = match std::io::Error::from_raw_os_error(code).kind() {
            std::io::ErrorKind::NotFound => ErrorKind::NotFound,
            std::io::ErrorKind::PermissionDenied => ErrorKind::PermissionDenied,
            std::io::ErrorKind::InvalidInput => ErrorKind::InvalidInput,
            _ => ErrorKind::Other,
        };
        assert_eq!(Error::Os { code }.kind(), expected);
    }
}

#[test]
fn kind_of_a_code_does_not_change() {
    for code in [libc::ENOENT, libc::EACCES, libc::EINVAL, libc::EBADF, 0, -1, i32::MAX] {
        let error = Error::Os { code };
        assert_eq!(error.kind(), error.kind());
        assert_eq!(error.kind(), Error::Os { code }.kind());
    }
}

#[test]
fn errors_compare_by_what_they_hold() {
    assert_eq!(Error::Os { code: 2 }, Error::Os { code: 2 });
    assert_ne!(Error::Os { code: 2 }, Error::Os { code: 13 });
    assert_ne!(Error::NulInPath { position: 2 }, Error::Os { code: 2 });
    assert_ne!(Error::NulInPath { position: 2 }, Error::NulInPath { position: 3 });
}
