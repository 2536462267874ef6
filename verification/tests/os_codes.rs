use path_permission::codes::{
    classify_access, classify_chmod, ErrorCodes, OsError, Status, EXECUTE, EXISTENCE, READ, WRITE,
    WRITE_EXECUTE,
};

/// The numbering of a system that names its failures otherwise.
fn elsewhere() -> ErrorCodes {
    ErrorCodes { denied: 2, not_permitted: 63, no_entry: 44 }
}

#[test]
fn masks_have_posix_values() {
    assert_eq!(READ, 4);
    assert_eq!(WRITE, 2);
    assert_eq!(EXECUTE, 1);
    assert_eq!(EXISTENCE, 0);
    assert_eq!(WRITE_EXECUTE, WRITE | EXECUTE);
    assert_eq!(WRITE_EXECUTE, 3);
}

#[test]
fn masks_agree_with_libc() {
    assert_eq!(READ, libc::R_OK);
    assert_eq!(WRITE, libc::W_OK);
    assert_eq!(EXECUTE, libc::X_OK);
    assert_eq!(WRITE_EXECUTE, libc::W_OK | libc::X_OK);
    assert_eq!(EXISTENCE, libc::F_OK);
}

#[test]
fn system_codes_are_those_of_libc() {
    let codes = ErrorCodes::system();
    assert_eq!(codes.denied, libc::EACCES);
    assert_eq!(codes.not_permitted, libc::EPERM);
    assert_eq!(codes.no_entry, libc::ENOENT);
}

#[test]
fn system_codes_are_distinct() {
    let codes = ErrorCodes::system();
    assert_ne!(codes.denied, codes.not_permitted);
    assert_ne!(codes.denied, codes.no_entry);
    assert_ne!(codes.not_permitted, codes.no_entry);
}

#[test]
fn access_success_is_true() {
    let codes = ErrorCodes::system();
    assert_eq!(classify_access(Status { ret: 0, errno: 0 }, codes), Ok(true));
    // The error code does not count where the call succeeded.
    assert_eq!(classify_access(Status { ret: 0, errno: libc::EACCES }, codes), Ok(true));
    assert_eq!(classify_access(Status { ret: 0, errno: libc::ENOENT }, codes), Ok(true));
}

#[test]
fn access_denied_is_false() {
    let codes = ErrorCodes::system();
    assert_eq!(classify_access(Status { ret: -1, errno: libc::EACCES }, codes), Ok(false));
    assert_eq!(classify_access(Status { ret: 7, errno: libc::EACCES }, codes), Ok(false));
}

#[test]
fn access_other_failures_are_errors() {
    let codes = ErrorCodes::system();
    assert_eq!(
        classify_access(Status { ret: -1, errno: libc::ENOENT }, codes),
        Err(OsError { code: libc::ENOENT })
    );
    assert_eq!(
        classify_access(Status { ret: -1, errno: libc::ENAMETOOLONG }, codes),
        Err(OsError { code: libc::ENAMETOOLONG })
    );
    assert_eq!(
        classify_access(Status { ret: -1, errno: libc::EIO }, codes),
        Err(OsError { code: libc::EIO })
    );
    assert_eq!(
        classify_access(Status { ret: -1, errno: libc::EPERM }, codes),
        Err(OsError { code: libc::EPERM })
    );
    assert_eq!(classify_access(Status { ret: -1, errno: 0 }, codes), Err(OsError { code: 0 }));
}

#[test]
fn chmod_success_is_true() {
    let codes = ErrorCodes::system();
    assert_eq!(classify_chmod(Status { ret: 0, errno: 0 }, codes), Ok(true));
    assert_eq!(classify_chmod(Status { ret: 0, errno: libc::EIO }, codes), Ok(true));
}

#[test]
fn chmod_want_of_permission_is_false() {
    let codes = ErrorCodes::system();
    assert_eq!(classify_chmod(Status { ret: -1, errno: libc::EACCES }, codes), Ok(false));
    assert_eq!(classify_chmod(Status { ret: -1, errno: libc::EPERM }, codes), Ok(false));
}

#[test]
fn chmod_missing_path_is_false() {
    let codes = ErrorCodes::system();
    assert_eq!(classify_chmod(Status { ret: -1, errno: libc::ENOENT }, codes), Ok(false));
}

#[test]
fn chmod_other_failures_are_errors() {
    let codes = ErrorCodes::system();
    assert_eq!(
        classify_chmod(Status { ret: -1, errno: libc::EROFS }, codes),
        Err(OsError { code: libc::EROFS })
    );
    assert_eq!(
        classify_chmod(Status { ret: -1, errno: libc::EIO }, codes),
        Err(OsError { code: libc::EIO })
    );
    assert_eq!(
        classify_chmod(Status { ret: -1, errno: libc::ENAMETOOLONG }, codes),
        Err(OsError { code: libc::ENAMETOOLONG })
    );
}

#[test]
fn access_and_chmod_differ_on_missing_path() {
    let codes = ErrorCodes::system();
    let missing = Status { ret: -1, errno: libc::ENOENT };
    assert_eq!(classify_access(missing, codes), Err(OsError { code: libc::ENOENT }));
    assert_eq!(classify_chmod(missing, codes), Ok(false));
}

#[test]
fn access_follows_the_codes_it_is_given() {
    // Where "permission denied" is 2 and "no such file" is 44, a failure
    // with 2 is a refusal and one with 13 or 44 is passed on.
    let codes = elsewhere();
    assert_eq!(classify_access(Status { ret: -1, errno: 2 }, codes), Ok(false));
    assert_eq!(classify_access(Status { ret: -1, errno: 13 }, codes), Err(OsError { code: 13 }));
    assert_eq!(classify_access(Status { ret: -1, errno: 44 }, codes), Err(OsError { code: 44 }));
    assert_eq!(classify_access(Status { ret: -1, errno: 63 }, codes), Err(OsError { code: 63 }));
    assert_eq!(classify_access(Status { ret: 0, errno: 13 }, codes), Ok(true));
}

#[test]
fn chmod_follows_the_codes_it_is_given() {
    let codes = elsewhere();
    assert_eq!(classify_chmod(Status { ret: -1, errno: 2 }, codes), Ok(false));
    assert_eq!(classify_chmod(Status { ret: -1, errno: 63 }, codes), Ok(false));
    assert_eq!(classify_chmod(Status { ret: -1, errno: 44 }, codes), Ok(false));
    assert_eq!(classify_chmod(Status { ret: -1, errno: 13 }, codes), Err(OsError { code: 13 }));
    assert_eq!(classify_chmod(Status { ret: -1, errno: 1 }, codes), Err(OsError { code: 1 }));
    assert_eq!(classify_chmod(Status { ret: 0, errno: 1 }, codes), Ok(true));
}
