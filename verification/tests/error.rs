use alist_client::error::{ApiStatusCode, InternalErrorKind};

#[test]
fn api_status_code_maps_known_and_unknown_codes() {
    assert_eq!(ApiStatusCode::from_code(200), ApiStatusCode::Success);
    assert_eq!(ApiStatusCode::from_code(202), ApiStatusCode::Accepted);
    assert_eq!(ApiStatusCode::from_code(400), ApiStatusCode::BadRequest);
    assert_eq!(ApiStatusCode::from_code(401), ApiStatusCode::Unauthorized);
    assert_eq!(ApiStatusCode::from_code(402), ApiStatusCode::TwoFactor);
    assert_eq!(ApiStatusCode::from_code(403), ApiStatusCode::Forbidden);
    assert_eq!(ApiStatusCode::from_code(404), ApiStatusCode::NotFound);
    assert_eq!(
        ApiStatusCode::from_code(405),
        ApiStatusCode::MethodNotAllowed
    );
    assert_eq!(
        ApiStatusCode::from_code(429),
        ApiStatusCode::TooManyRequests
    );
    assert_eq!(
        ApiStatusCode::from_code(500),
        ApiStatusCode::InternalServerError
    );
    assert_eq!(ApiStatusCode::from_code(599), ApiStatusCode::Unknown(599));
    assert_eq!(ApiStatusCode::Forbidden.as_i32(), 403);
}

#[test]
fn internal_error_kind_covers_alist_internal_errs_messages() {
    let cases = [
        ("not implement", InternalErrorKind::NotImplement),
        ("not support", InternalErrorKind::NotSupport),
        (
            "access using relative path is not allowed",
            InternalErrorKind::RelativePath,
        ),
        (
            "can't move files between two storages, try to copy",
            InternalErrorKind::MoveBetweenTwoStorages,
        ),
        (
            "upload not supported",
            InternalErrorKind::UploadNotSupported,
        ),
        ("meta not found", InternalErrorKind::MetaNotFound),
        ("storage not found", InternalErrorKind::StorageNotFound),
        (
            "upload/download stream incomplete, possible network issue",
            InternalErrorKind::StreamIncomplete,
        ),
        ("StreamPeekFail", InternalErrorKind::StreamPeekFail),
        (
            "unknown archive format",
            InternalErrorKind::UnknownArchiveFormat,
        ),
        (
            "wrong archive password",
            InternalErrorKind::WrongArchivePassword,
        ),
        (
            "driver extraction not supported",
            InternalErrorKind::DriverExtractNotSupported,
        ),
        ("object not found", InternalErrorKind::ObjectNotFound),
        ("not a folder", InternalErrorKind::NotFolder),
        ("not a file", InternalErrorKind::NotFile),
        ("username is empty", InternalErrorKind::EmptyUsername),
        ("password is empty", InternalErrorKind::EmptyPassword),
        ("password is incorrect", InternalErrorKind::WrongPassword),
        (
            "cannot delete admin or guest",
            InternalErrorKind::DeleteAdminOrGuest,
        ),
        (
            "search not available",
            InternalErrorKind::SearchNotAvailable,
        ),
        (
            "build index is running, please try later",
            InternalErrorKind::BuildIndexIsRunning,
        ),
        ("permission denied", InternalErrorKind::PermissionDenied),
        ("invalid file name", InternalErrorKind::InvalidName),
        ("empty token", InternalErrorKind::EmptyToken),
        ("link is dir", InternalErrorKind::LinkIsDir),
        (
            "cannot modify admin role",
            InternalErrorKind::ErrChangeDefaultRole,
        ),
        ("too many active devices", InternalErrorKind::TooManyDevices),
        ("session inactive", InternalErrorKind::SessionInactive),
    ];

    for (message, expected) in cases {
        assert_eq!(InternalErrorKind::from_message(message), Some(expected));
    }
}

#[test]
fn status_codes_round_trip_through_their_numbers() {
    for code in [-1, 0, 200, 202, 299, 400, 401, 402, 403, 404, 405, 429, 500, 599, i32::MAX] {
        assert_eq!(ApiStatusCode::from_code(code).as_i32(), code);
    }
    assert_eq!(ApiStatusCode::from(401), ApiStatusCode::Unauthorized);
    assert_eq!(ApiStatusCode::Unknown(200).as_i32(), 200);
    assert_eq!(ApiStatusCode::from_code(ApiStatusCode::Unknown(200).as_i32()), ApiStatusCode::Success);
}

#[test]
fn only_the_success_code_is_success() {
    assert!(ApiStatusCode::Success.is_success());
    assert!(!ApiStatusCode::Accepted.is_success());
    assert!(!ApiStatusCode::Unknown(200).is_success());
    assert!(ApiStatusCode::from_code(200).is_success());
    assert!(!ApiStatusCode::from_code(204).is_success());
}

#[test]
fn message_classification_ignores_case_and_surrounding_text() {
    assert_eq!(
        InternalErrorKind::from_message("failed: Permission Denied for /a"),
        Some(InternalErrorKind::PermissionDenied)
    );
    assert_eq!(
        InternalErrorKind::from_message("STREAMPEEKFAIL"),
        Some(InternalErrorKind::StreamPeekFail)
    );
    assert_eq!(InternalErrorKind::from_message("token expired"), None);
    assert_eq!(InternalErrorKind::from_message(""), None);
    assert_eq!(InternalErrorKind::from_message("not a fil"), None);
}

#[test]
fn message_classification_takes_the_first_table_entry() {
    // "upload not supported" also holds "not support"; the earlier entry wins.
    assert_eq!(
        InternalErrorKind::from_message("upload not supported"),
        Some(InternalErrorKind::UploadNotSupported)
    );
    // "not implement" comes before "object not found" in the table.
    assert_eq!(
        InternalErrorKind::from_message("object not found; not implement"),
        Some(InternalErrorKind::NotImplement)
    );
    assert_eq!(
        InternalErrorKind::from_message("driver extraction not supported"),
        Some(InternalErrorKind::DriverExtractNotSupported)
    );
}

#[test]
fn classification_handles_non_ascii_text() {
    assert_eq!(
        InternalErrorKind::from_message("错误: link is dir"),
        Some(InternalErrorKind::LinkIsDir)
    );
    // Only ASCII letters are folded; other letters keep their case.
    assert_eq!(InternalErrorKind::from_message("ÉMPTY TOKEN"), None);
}
