//! Status codes of the AList JSON envelope and classification of its error messages.

use crate::text::{
    ascii_lower, chars_of, contains_lowered, contains_text, lemma_ascii_lower_idempotent,
};
use vstd::prelude::*;

verus! {

/// AList logical status codes carried in the JSON response envelope.
#[derive(Debug, Clone, Copy, PartialEq, Eq, Structural, Hash)]
pub enum ApiStatusCode {
    /// Successful response.
    Success,
    /// Archive password is wrong or archive metadata is not ready.
    Accepted,
    /// Bad request or validation error.
    BadRequest,
    /// Authentication required or token invalid.
    Unauthorized,
    /// 2FA code required/invalid in login flow.
    TwoFactor,
    /// Permission denied.
    Forbidden,
    /// Resource not found.
    NotFound,
    /// Method or operation not allowed.
    MethodNotAllowed,
    /// Login throttled.
    TooManyRequests,
    /// Server-side error.
    InternalServerError,
    /// Any server code not known to this client version.
    Unknown(i32),
}

/// The typed status that a raw envelope code stands for.
pub open spec fn status_of_code(code: i32) -> ApiStatusCode {
    if code == 200 {
        ApiStatusCode::Success
    } else if code == 202 {
        ApiStatusCode::Accepted
    } else if code == 400 {
        ApiStatusCode::BadRequest
    } else if code == 401 {
        ApiStatusCode::Unauthorized
    } else if code == 402 {
        ApiStatusCode::TwoFactor
    } else if code == 403 {
        ApiStatusCode::Forbidden
    } else if code == 404 {
        ApiStatusCode::NotFound
    } else if code == 405 {
        ApiStatusCode::MethodNotAllowed
    } else if code == 429 {
        ApiStatusCode::TooManyRequests
    } else if code == 500 {
        ApiStatusCode::InternalServerError
    } else {
        ApiStatusCode::Unknown(code)
    }
}

/// The raw envelope code of a typed status.
pub open spec fn code_of_status(status: ApiStatusCode) -> i32 {
    match status {
        ApiStatusCode::Success => 200,
        ApiStatusCode::Accepted => 202,
        ApiStatusCode::BadRequest => 400,
        ApiStatusCode::Unauthorized => 401,
        ApiStatusCode::TwoFactor => 402,
        ApiStatusCode::Forbidden => 403,
        ApiStatusCode::NotFound => 404,
        ApiStatusCode::MethodNotAllowed => 405,
        ApiStatusCode::TooManyRequests => 429,
        ApiStatusCode::InternalServerError => 500,
        ApiStatusCode::Unknown(code) => code,
    }
}

/// Whether a code is one of the codes that have a named variant.
pub open spec fn is_known_code(code: i32) -> bool {
    status_of_code(code) !is Unknown
}

impl ApiStatusCode {
    /// Convert a raw AList response code into a typed status.
    pub fn from_code(code: i32) -> (status: Self)
        ensures
            status == status_of_code(code),
    {
        match code {
            200 => ApiStatusCode::Success,
            202 => ApiStatusCode::Accepted,
            400 => ApiStatusCode::BadRequest,
            401 => ApiStatusCode::Unauthorized,
            402 => ApiStatusCode::TwoFactor,
            403 => ApiStatusCode::Forbidden,
            404 => ApiStatusCode::NotFound,
            405 => ApiStatusCode::MethodNotAllowed,
            429 => ApiStatusCode::TooManyRequests,
            500 => ApiStatusCode::InternalServerError,
            other => ApiStatusCode::Unknown(other),
        }
    }

    /// Return the numeric code used by AList.
    pub fn as_i32(self) -> (code: i32)
        ensures
            code == code_of_status(self),
    {
        match self {
            ApiStatusCode::Success => 200,
            ApiStatusCode::Accepted => 202,
            ApiStatusCode::BadRequest => 400,
            ApiStatusCode::Unauthorized => 401,
            ApiStatusCode::TwoFactor => 402,
            ApiStatusCode::Forbidden => 403,
            ApiStatusCode::NotFound => 404,
            ApiStatusCode::MethodNotAllowed => 405,
            ApiStatusCode::TooManyRequests => 429,
            ApiStatusCode::InternalServerError => 500,
            ApiStatusCode::Unknown(code) => code,
        }
    }

    /// Whether this code represents a successful API response.
    pub fn is_success(self) -> (ok: bool)
        ensures
            ok <==> self == ApiStatusCode::Success,
    {
        match self {
            ApiStatusCode::Success => true,
            _ => false,
        }
    }
}

impl From<i32> for ApiStatusCode {
    fn from(value: i32) -> (status: Self) {
        ApiStatusCode::from_code(value)
    }
}

impl vstd::std_specs::convert::FromSpecImpl<i32> for ApiStatusCode {
    open spec fn obeys_from_spec() -> bool {
        true
    }

    open spec fn from_spec(v: i32) -> ApiStatusCode {
        status_of_code(v)
    }
}

/// The named statuses stand for the codes AList documents, and every other
/// code is kept as `Unknown` with its value.
pub proof fn lemma_documented_codes(code: i32)
    ensures
        status_of_code(200) == ApiStatusCode::Success && code_of_status(ApiStatusCode::Success) == 200,
        status_of_code(202) == ApiStatusCode::Accepted && code_of_status(ApiStatusCode::Accepted) == 202,
        status_of_code(400) == ApiStatusCode::BadRequest && code_of_status(ApiStatusCode::BadRequest) == 400,
        status_of_code(401) == ApiStatusCode::Unauthorized && code_of_status(ApiStatusCode::Unauthorized) == 401,
        status_of_code(402) == ApiStatusCode::TwoFactor && code_of_status(ApiStatusCode::TwoFactor) == 402,
        status_of_code(403) == ApiStatusCode::Forbidden && code_of_status(ApiStatusCode::Forbidden) == 403,
        status_of_code(404) == ApiStatusCode::NotFound && code_of_status(ApiStatusCode::NotFound) == 404,
        status_of_code(405) == ApiStatusCode::MethodNotAllowed && code_of_status(ApiStatusCode::MethodNotAllowed) == 405,
        status_of_code(429) == ApiStatusCode::TooManyRequests && code_of_status(ApiStatusCode::TooManyRequests) == 429,
        status_of_code(500) == ApiStatusCode::InternalServerError && code_of_status(ApiStatusCode::InternalServerError) == 500,
        code != 200 && code != 202 && code != 400 && code != 401 && code != 402 && code != 403 && code != 404 && code != 405 && code != 429 && code != 500 ==> status_of_code(code) == ApiStatusCode::Unknown(code),
        is_known_code(code) <==> !(code != 200 && code != 202 && code != 400 && code != 401 && code != 402 && code != 403 && code != 404 && code != 405 && code != 429 && code != 500),
{
}

/// Every raw code survives the round trip through its typed status.
pub proof fn lemma_code_round_trip(code: i32)
    ensures
        code_of_status(status_of_code(code)) == code,
{
}

/// Every typed status survives the round trip through its raw code, except an
/// `Unknown` that carries a code which has a named variant of its own.
pub proof fn lemma_status_round_trip(status: ApiStatusCode)
    requires
        !(status matches ApiStatusCode::Unknown(c) && is_known_code(c)),
    ensures
        status_of_code(code_of_status(status)) == status,
{
}

/// A raw code is a success exactly when it is 200.
pub proof fn lemma_success_code(code: i32)
    ensures
        (status_of_code(code) == ApiStatusCode::Success) <==> code == 200,
{
}

/// Stable names for constant errors in `alist/internal/errs`.
#[derive(Debug, Clone, Copy, PartialEq, Eq, Structural, Hash)]
pub enum InternalErrorKind {
    /// `not implement`.
    NotImplement,
    /// `not support`.
    NotSupport,
    /// `access using relative path is not allowed`.
    RelativePath,
    /// `can't move files between two storages, try to copy`.
    MoveBetweenTwoStorages,
    /// `upload not supported`.
    UploadNotSupported,
    /// `meta not found`.
    MetaNotFound,
    /// `storage not found`.
    StorageNotFound,
    /// `upload/download stream incomplete, possible network issue`.
    StreamIncomplete,
    /// `StreamPeekFail`.
    StreamPeekFail,
    /// `unknown archive format`.
    UnknownArchiveFormat,
    /// `wrong archive password`.
    WrongArchivePassword,
    /// `driver extraction not supported`.
    DriverExtractNotSupported,
    /// `object not found`.
    ObjectNotFound,
    /// `not a folder`.
    NotFolder,
    /// `not a file`.
    NotFile,
    /// `username is empty`.
    EmptyUsername,
    /// `password is empty`.
    EmptyPassword,
    /// `password is incorrect`.
    WrongPassword,
    /// `cannot delete admin or guest`.
    DeleteAdminOrGuest,
    /// `search not available`.
    SearchNotAvailable,
    /// `build index is running, please try later`.
    BuildIndexIsRunning,
    /// `permission denied`.
    PermissionDenied,
    /// `invalid file name`.
    InvalidName,
    /// `empty token`.
    EmptyToken,
    /// `link is dir`.
    LinkIsDir,
    /// `cannot modify admin role`.
    ErrChangeDefaultRole,
    /// `too many active devices`.
    TooManyDevices,
    /// `session inactive`.
    SessionInactive,
}

/// Number of entries in the classification table.
pub const MAPPING_COUNT: usize = 28;

/// Text of the classification entry at position `i`, in the order in which
/// entries are tried.
pub open spec fn mapping_needle(i: int) -> Seq<char> {
    if i == 0 {
        "upload not supported"@
    } else if i == 1 {
        "driver extraction not supported"@
    } else if i == 2 {
        "not implement"@
    } else if i == 3 {
        "not support"@
    } else if i == 4 {
        "access using relative path is not allowed"@
    } else if i == 5 {
        "can't move files between two storages, try to copy"@
    } else if i == 6 {
        "meta not found"@
    } else if i == 7 {
        "storage not found"@
    } else if i == 8 {
        "upload/download stream incomplete, possible network issue"@
    } else if i == 9 {
        "streampeekfail"@
    } else if i == 10 {
        "unknown archive format"@
    } else if i == 11 {
        "wrong archive password"@
    } else if i == 12 {
        "object not found"@
    } else if i == 13 {
        "not a folder"@
    } else if i == 14 {
        "not a file"@
    } else if i == 15 {
        "username is empty"@
    } else if i == 16 {
        "password is empty"@
    } else if i == 17 {
        "password is incorrect"@
    } else if i == 18 {
        "cannot delete admin or guest"@
    } else if i == 19 {
        "search not available"@
    } else if i == 20 {
        "build index is running, please try later"@
    } else if i == 21 {
        "permission denied"@
    } else if i == 22 {
        "invalid file name"@
    } else if i == 23 {
        "empty token"@
    } else if i == 24 {
        "link is dir"@
    } else if i == 25 {
        "cannot modify admin role"@
    } else if i == 26 {
        "too many active devices"@
    } else {
        "session inactive"@
    }
}

/// Kind of the classification entry at position `i`.
pub open spec fn mapping_kind(i: int) -> InternalErrorKind {
    if i == 0 {
        InternalErrorKind::UploadNotSupported
    } else if i == 1 {
        InternalErrorKind::DriverExtractNotSupported
    } else if i == 2 {
        InternalErrorKind::NotImplement
    } else if i == 3 {
        InternalErrorKind::NotSupport
    } else if i == 4 {
        InternalErrorKind::RelativePath
    } else if i == 5 {
        InternalErrorKind::MoveBetweenTwoStorages
    } else if i == 6 {
        InternalErrorKind::MetaNotFound
    } else if i == 7 {
        InternalErrorKind::StorageNotFound
    } else if i == 8 {
        InternalErrorKind::StreamIncomplete
    } else if i == 9 {
        InternalErrorKind::StreamPeekFail
    } else if i == 10 {
        InternalErrorKind::UnknownArchiveFormat
    } else if i == 11 {
        InternalErrorKind::WrongArchivePassword
    } else if i == 12 {
        InternalErrorKind::ObjectNotFound
    } else if i == 13 {
        InternalErrorKind::NotFolder
    } else if i == 14 {
        InternalErrorKind::NotFile
    } else if i == 15 {
        InternalErrorKind::EmptyUsername
    } else if i == 16 {
        InternalErrorKind::EmptyPassword
    } else if i == 17 {
        InternalErrorKind::WrongPassword
    } else if i == 18 {
        InternalErrorKind::DeleteAdminOrGuest
    } else if i == 19 {
        InternalErrorKind::SearchNotAvailable
    } else if i == 20 {
        InternalErrorKind::BuildIndexIsRunning
    } else if i == 21 {
        InternalErrorKind::PermissionDenied
    } else if i == 22 {
        InternalErrorKind::InvalidName
    } else if i == 23 {
        InternalErrorKind::EmptyToken
    } else if i == 24 {
        InternalErrorKind::LinkIsDir
    } else if i == 25 {
        InternalErrorKind::ErrChangeDefaultRole
    } else if i == 26 {
        InternalErrorKind::TooManyDevices
    } else {
        InternalErrorKind::SessionInactive
    }
}

/// The entry at position `i` of the classification table.
fn mapping_entry(i: usize) -> (entry: (&'static str, InternalErrorKind))
    requires
        i < MAPPING_COUNT,
    ensures
        entry.0@ == mapping_needle(i as int),
        entry.1 == mapping_kind(i as int),
{
    match i {
        0 => ("upload not supported", InternalErrorKind::UploadNotSupported),
        1 => ("driver extraction not supported", InternalErrorKind::DriverExtractNotSupported),
        2 => ("not implement", InternalErrorKind::NotImplement),
        3 => ("not support", InternalErrorKind::NotSupport),
        4 => ("access using relative path is not allowed", InternalErrorKind::RelativePath),
        5 => ("can't move files between two storages, try to copy", InternalErrorKind::MoveBetweenTwoStorages),
        6 => ("meta not found", InternalErrorKind::MetaNotFound),
        7 => ("storage not found", InternalErrorKind::StorageNotFound),
        8 => ("upload/download stream incomplete, possible network issue", InternalErrorKind::StreamIncomplete),
        9 => ("streampeekfail", InternalErrorKind::StreamPeekFail),
        10 => ("unknown archive format", InternalErrorKind::UnknownArchiveFormat),
        11 => ("wrong archive password", InternalErrorKind::WrongArchivePassword),
        12 => ("object not found", InternalErrorKind::ObjectNotFound),
        13 => ("not a folder", InternalErrorKind::NotFolder),
        14 => ("not a file", InternalErrorKind::NotFile),
        15 => ("username is empty", InternalErrorKind::EmptyUsername),
        16 => ("password is empty", InternalErrorKind::EmptyPassword),
        17 => ("password is incorrect", InternalErrorKind::WrongPassword),
        18 => ("cannot delete admin or guest", InternalErrorKind::DeleteAdminOrGuest),
        19 => ("search not available", InternalErrorKind::SearchNotAvailable),
        20 => ("build index is running, please try later", InternalErrorKind::BuildIndexIsRunning),
        21 => ("permission denied", InternalErrorKind::PermissionDenied),
        22 => ("invalid file name", InternalErrorKind::InvalidName),
        23 => ("empty token", InternalErrorKind::EmptyToken),
        24 => ("link is dir", InternalErrorKind::LinkIsDir),
        25 => ("cannot modify admin role", InternalErrorKind::ErrChangeDefaultRole),
        26 => ("too many active devices", InternalErrorKind::TooManyDevices),
        _ => ("session inactive", InternalErrorKind::SessionInactive),
    }
}

/// The kind of the first table entry, from position `i` on, whose text occurs
/// in `lowered`.
pub open spec fn first_match_from(lowered: Seq<char>, i: nat) -> Option<InternalErrorKind>
    decreases MAPPING_COUNT - i,
{
    if i >= MAPPING_COUNT {
        None
    } else if contains_text(lowered, mapping_needle(i as int)) {
        Some(mapping_kind(i as int))
    } else {
        first_match_from(lowered, i + 1)
    }
}

/// The kind that a server message is classified as: the first table entry
/// whose text occurs in the ASCII-lowercased message.
pub open spec fn classify_message(message: Seq<char>) -> Option<InternalErrorKind> {
    first_match_from(ascii_lower(message), 0)
}

impl InternalErrorKind {
    /// Classify an AList error message by matching the constant error text.
    ///
    /// AList responses do not include a symbolic error id, so this intentionally
    /// matches exact substrings from `alist/internal/errs`.
    pub fn from_message(message: &str) -> (kind: Option<Self>)
        ensures
            kind == classify_message(message@),
    {
        let hay = chars_of(message);
        let ghost lowered = ascii_lower(message@);
        let mut i: usize = 0;
        while i < MAPPING_COUNT
            invariant
                i <= MAPPING_COUNT,
                hay@ == message@,
                lowered == ascii_lower(message@),
                first_match_from(lowered, 0) == first_match_from(lowered, i as nat),
            decreases MAPPING_COUNT - i,
        {
            let (needle_text, kind) = mapping_entry(i);
            let needle = chars_of(needle_text);
            if contains_lowered(&hay, &needle) {
                return Some(kind);
            }
            i += 1;
        }
        None
    }
}

/// A message is classified exactly as its ASCII-lowercased form is: the
/// classification ignores ASCII case.
pub proof fn lemma_classify_ignores_ascii_case(message: Seq<char>)
    ensures
        classify_message(ascii_lower(message)) == classify_message(message),
{
    lemma_ascii_lower_idempotent(message);
}

/// What a classification means: `Some(kind)` names the first table entry whose
/// text occurs in the lowercased message, and `None` means that no entry's text
/// occurs in it.
pub proof fn lemma_classify_meaning(message: Seq<char>)
    ensures
        classify_message(message) matches Some(kind) ==> exists|i: int|
            0 <= i < MAPPING_COUNT && mapping_kind(i) == kind && contains_text(
                ascii_lower(message),
                #[trigger] mapping_needle(i),
            ) && forall|j: int|
                0 <= j < i ==> !contains_text(ascii_lower(message), #[trigger] mapping_needle(j)),
        classify_message(message) is None ==> forall|i: int|
            0 <= i < MAPPING_COUNT ==> !contains_text(
                ascii_lower(message),
                #[trigger] mapping_needle(i),
            ),
{
    lemma_first_match_from(ascii_lower(message), 0);
}

proof fn lemma_first_match_from(lowered: Seq<char>, start: nat)
    requires
        start <= MAPPING_COUNT,
    ensures
        first_match_from(lowered, start) matches Some(kind) ==> exists|i: int|
            start <= i < MAPPING_COUNT && mapping_kind(i) == kind && contains_text(
                lowered,
                #[trigger] mapping_needle(i),
            ) && forall|j: int|
                start <= j < i ==> !contains_text(lowered, #[trigger] mapping_needle(j)),
        first_match_from(lowered, start) is None ==> forall|i: int|
            start <= i < MAPPING_COUNT ==> !contains_text(lowered, #[trigger] mapping_needle(i)),
    decreases MAPPING_COUNT - start,
{
    if start < MAPPING_COUNT {
        lemma_first_match_from(lowered, start + 1);
        if contains_text(lowered, mapping_needle(start as int)) {
            assert(mapping_kind(start as int) == mapping_kind(start as int));
        } else {
            if let Some(kind) = first_match_from(lowered, start + 1) {
                let i = choose|i: int|
                    start + 1 <= i < MAPPING_COUNT && mapping_kind(i) == kind && contains_text(
                        lowered,
                        #[trigger] mapping_needle(i),
                    ) && forall|j: int|
                        start + 1 <= j < i ==> !contains_text(
                            lowered,
                            #[trigger] mapping_needle(j),
                        );
                assert(forall|j: int|
                    start <= j < i ==> !contains_text(lowered, #[trigger] mapping_needle(j)));
            }
        }
    }
}

/// All errors produced by this crate.
#[derive(Debug)]
pub enum ClientError {
    /// Failed to build or parse a URL.
    Url(url::ParseError),
    /// HTTP transport error from reqwest.
    Http(reqwest::Error),
    /// JSON serialization or deserialization error.
    Json(serde_json::Error),
    /// I/O error, typically from upload body construction.
    Io(std::io::Error),
    /// Non-success HTTP status before AList JSON decoding.
    HttpStatus {
        /// HTTP status code.
        status: u16,
        /// Response body text.
        body: String,
    },
    /// AList JSON envelope had a non-200 logical code.
    Api {
        /// Typed AList status code.
        code: ApiStatusCode,
        /// Server message.
        message: String,
        /// Best-effort classification from `alist/internal/errs`.
        kind: Option<InternalErrorKind>,
        /// Raw `data` from the error envelope.
        data: serde_json::Value,
    },
}

/// Result alias used by the client.
pub type Result<T> = core::result::Result<T, ClientError>;

/// Each kind is reported only for a message that holds, in any ASCII case, the
/// text of the `alist/internal/errs` error it names (`StreamPeekFail` is
/// matched in lowercase like every other text); a message that holds none of
/// these texts is not classified.
pub proof fn lemma_classify_by_error_text(message: Seq<char>)
    ensures
        classify_message(message) == Some(InternalErrorKind::UploadNotSupported) ==> contains_text(
            ascii_lower(message),
            "upload not supported"@,
        ),
        classify_message(message) == Some(InternalErrorKind::DriverExtractNotSupported) ==> contains_text(
            ascii_lower(message),
            "driver extraction not supported"@,
        ),
        classify_message(message) == Some(InternalErrorKind::NotImplement) ==> contains_text(
            ascii_lower(message),
            "not implement"@,
        ),
        classify_message(message) == Some(InternalErrorKind::NotSupport) ==> contains_text(
            ascii_lower(message),
            "not support"@,
        ),
        classify_message(message) == Some(InternalErrorKind::RelativePath) ==> contains_text(
            ascii_lower(message),
            "access using relative path is not allowed"@,
        ),
        classify_message(message) == Some(InternalErrorKind::MoveBetweenTwoStorages) ==> contains_text(
            ascii_lower(message),
            "can't move files between two storages, try to copy"@,
        ),
        classify_message(message) == Some(InternalErrorKind::MetaNotFound) ==> contains_text(
            ascii_lower(message),
            "meta not found"@,
        ),
        classify_message(message) == Some(InternalErrorKind::StorageNotFound) ==> contains_text(
            ascii_lower(message),
            "storage not found"@,
        ),
        classify_message(message) == Some(InternalErrorKind::StreamIncomplete) ==> contains_text(
            ascii_lower(message),
            "upload/download stream incomplete, possible network issue"@,
        ),
        classify_message(message) == Some(InternalErrorKind::StreamPeekFail) ==> contains_text(
            ascii_lower(message),
            "streampeekfail"@,
        ),
        classify_message(message) == Some(InternalErrorKind::UnknownArchiveFormat) ==> contains_text(
            ascii_lower(message),
            "unknown archive format"@,
        ),
        classify_message(message) == Some(InternalErrorKind::WrongArchivePassword) ==> contains_text(
            ascii_lower(message),
            "wrong archive password"@,
        ),
        classify_message(message) == Some(InternalErrorKind::ObjectNotFound) ==> contains_text(
            ascii_lower(message),
            "object not found"@,
        ),
        classify_message(message) == Some(InternalErrorKind::NotFolder) ==> contains_text(
            ascii_lower(message),
            "not a folder"@,
        ),
        classify_message(message) == Some(InternalErrorKind::NotFile) ==> contains_text(
            ascii_lower(message),
            "not a file"@,
        ),
        classify_message(message) == Some(InternalErrorKind::EmptyUsername) ==> contains_text(
            ascii_lower(message),
            "username is empty"@,
        ),
        classify_message(message) == Some(InternalErrorKind::EmptyPassword) ==> contains_text(
            ascii_lower(message),
            "password is empty"@,
        ),
        classify_message(message) == Some(InternalErrorKind::WrongPassword) ==> contains_text(
            ascii_lower(message),
            "password is incorrect"@,
        ),
        classify_message(message) == Some(InternalErrorKind::DeleteAdminOrGuest) ==> contains_text(
            ascii_lower(message),
            "cannot delete admin or guest"@,
        ),
        classify_message(message) == Some(InternalErrorKind::SearchNotAvailable) ==> contains_text(
            ascii_lower(message),
            "search not available"@,
        ),
        classify_message(message) == Some(InternalErrorKind::BuildIndexIsRunning) ==> contains_text(
            ascii_lower(message),
            "build index is running, please try later"@,
        ),
        classify_message(message) == Some(InternalErrorKind::PermissionDenied) ==> contains_text(
            ascii_lower(message),
            "permission denied"@,
        ),
        classify_message(message) == Some(InternalErrorKind::InvalidName) ==> contains_text(
            ascii_lower(message),
            "invalid file name"@,
        ),
        classify_message(message) == Some(InternalErrorKind::EmptyToken) ==> contains_text(
            ascii_lower(message),
            "empty token"@,
        ),
        classify_message(message) == Some(InternalErrorKind::LinkIsDir) ==> contains_text(
            ascii_lower(message),
            "link is dir"@,
        ),
        classify_message(message) == Some(InternalErrorKind::ErrChangeDefaultRole) ==> contains_text(
            ascii_lower(message),
            "cannot modify admin role"@,
        ),
        classify_message(message) == Some(InternalErrorKind::TooManyDevices) ==> contains_text(
            ascii_lower(message),
            "too many active devices"@,
        ),
        classify_message(message) == Some(InternalErrorKind::SessionInactive) ==> contains_text(
            ascii_lower(message),
            "session inactive"@,
        ),
        classify_message(message) is None ==> !contains_text(ascii_lower(message), "upload not supported"@),
        classify_message(message) is None ==> !contains_text(ascii_lower(message), "driver extraction not supported"@),
        classify_message(message) is None ==> !contains_text(ascii_lower(message), "not implement"@),
        classify_message(message) is None ==> !contains_text(ascii_lower(message), "not support"@),
        classify_message(message) is None ==> !contains_text(ascii_lower(message), "access using relative path is not allowed"@),
        classify_message(message) is None ==> !contains_text(ascii_lower(message), "can't move files between two storages, try to copy"@),
        classify_message(message) is None ==> !contains_text(ascii_lower(message), "meta not found"@),
        classify_message(message) is None ==> !contains_text(ascii_lower(message), "storage not found"@),
        classify_message(message) is None ==> !contains_text(ascii_lower(message), "upload/download stream incomplete, possible network issue"@),
        classify_message(message) is None ==> !contains_text(ascii_lower(message), "streampeekfail"@),
        classify_message(message) is None ==> !contains_text(ascii_lower(message), "unknown archive format"@),
        classify_message(message) is None ==> !contains_text(ascii_lower(message), "wrong archive password"@),
        classify_message(message) is None ==> !contains_text(ascii_lower(message), "object not found"@),
        classify_message(message) is None ==> !contains_text(ascii_lower(message), "not a folder"@),
        classify_message(message) is None ==> !contains_text(ascii_lower(message), "not a file"@),
        classify_message(message) is None ==> !contains_text(ascii_lower(message), "username is empty"@),
        classify_message(message) is None ==> !contains_text(ascii_lower(message), "password is empty"@),
        classify_message(message) is None ==> !contains_text(ascii_lower(message), "password is incorrect"@),
        classify_message(message) is None ==> !contains_text(ascii_lower(message), "cannot delete admin or guest"@),
        classify_message(message) is None ==> !contains_text(ascii_lower(message), "search not available"@),
        classify_message(message) is None ==> !contains_text(ascii_lower(message), "build index is running, please try later"@),
        classify_message(message) is None ==> !contains_text(ascii_lower(message), "permission denied"@),
        classify_message(message) is None ==> !contains_text(ascii_lower(message), "invalid file name"@),
        classify_message(message) is None ==> !contains_text(ascii_lower(message), "empty token"@),
        classify_message(message) is None ==> !contains_text(ascii_lower(message), "link is dir"@),
        classify_message(message) is None ==> !contains_text(ascii_lower(message), "cannot modify admin role"@),
        classify_message(message) is None ==> !contains_text(ascii_lower(message), "too many active devices"@),
        classify_message(message) is None ==> !contains_text(ascii_lower(message), "session inactive"@),
{
    lemma_classify_meaning(message);
    let lowered = ascii_lower(message);
        assert(mapping_needle(0) == "upload not supported"@ && mapping_kind(0) == InternalErrorKind::UploadNotSupported);
        assert(mapping_needle(1) == "driver extraction not supported"@ && mapping_kind(1) == InternalErrorKind::DriverExtractNotSupported);
        assert(mapping_needle(2) == "not implement"@ && mapping_kind(2) == InternalErrorKind::NotImplement);
        assert(mapping_needle(3) == "not support"@ && mapping_kind(3) == InternalErrorKind::NotSupport);
        assert(mapping_needle(4) == "access using relative path is not allowed"@ && mapping_kind(4) == InternalErrorKind::RelativePath);
        assert(mapping_needle(5) == "can't move files between two storages, try to copy"@ && mapping_kind(5) == InternalErrorKind::MoveBetweenTwoStorages);
        assert(mapping_needle(6) == "meta not found"@ && mapping_kind(6) == InternalErrorKind::MetaNotFound);
        assert(mapping_needle(7) == "storage not found"@ && mapping_kind(7) == InternalErrorKind::StorageNotFound);
        assert(mapping_needle(8) == "upload/download stream incomplete, possible network issue"@ && mapping_kind(8) == InternalErrorKind::StreamIncomplete);
        assert(mapping_needle(9) == "streampeekfail"@ && mapping_kind(9) == InternalErrorKind::StreamPeekFail);
        assert(mapping_needle(10) == "unknown archive format"@ && mapping_kind(10) == InternalErrorKind::UnknownArchiveFormat);
        assert(mapping_needle(11) == "wrong archive password"@ && mapping_kind(11) == InternalErrorKind::WrongArchivePassword);
        assert(mapping_needle(12) == "object not found"@ && mapping_kind(12) == InternalErrorKind::ObjectNotFound);
        assert(mapping_needle(13) == "not a folder"@ && mapping_kind(13) == InternalErrorKind::NotFolder);
        assert(mapping_needle(14) == "not a file"@ && mapping_kind(14) == InternalErrorKind::NotFile);
        assert(mapping_needle(15) == "username is empty"@ && mapping_kind(15) == InternalErrorKind::EmptyUsername);
        assert(mapping_needle(16) == "password is empty"@ && mapping_kind(16) == InternalErrorKind::EmptyPassword);
        assert(mapping_needle(17) == "password is incorrect"@ && mapping_kind(17) == InternalErrorKind::WrongPassword);
        assert(mapping_needle(18) == "cannot delete admin or guest"@ && mapping_kind(18) == InternalErrorKind::DeleteAdminOrGuest);
        assert(mapping_needle(19) == "search not available"@ && mapping_kind(19) == InternalErrorKind::SearchNotAvailable);
        assert(mapping_needle(20) == "build index is running, please try later"@ && mapping_kind(20) == InternalErrorKind::BuildIndexIsRunning);
        assert(mapping_needle(21) == "permission denied"@ && mapping_kind(21) == InternalErrorKind::PermissionDenied);
        assert(mapping_needle(22) == "invalid file name"@ && mapping_kind(22) == InternalErrorKind::InvalidName);
        assert(mapping_needle(23) == "empty token"@ && mapping_kind(23) == InternalErrorKind::EmptyToken);
        assert(mapping_needle(24) == "link is dir"@ && mapping_kind(24) == InternalErrorKind::LinkIsDir);
        assert(mapping_needle(25) == "cannot modify admin role"@ && mapping_kind(25) == InternalErrorKind::ErrChangeDefaultRole);
        assert(mapping_needle(26) == "too many active devices"@ && mapping_kind(26) == InternalErrorKind::TooManyDevices);
        assert(mapping_needle(27) == "session inactive"@ && mapping_kind(27) == InternalErrorKind::SessionInactive);
    if let Some(kind) = classify_message(message) {
        let i = choose|i: int|
            0 <= i < MAPPING_COUNT && mapping_kind(i) == kind && contains_text(
                lowered,
                #[trigger] mapping_needle(i),
            ) && forall|j: int|
                0 <= j < i ==> !contains_text(lowered, #[trigger] mapping_needle(j));
        assert(0 <= i < 28);
    }
}

/// When a message holds the texts of several errors, the kind reported is the
/// one whose text comes first in this order: `upload not supported`, `driver
/// extraction not supported`, then the other texts in the order in which the
/// variants are declared. A kind is reported only when no text before its own
/// occurs in the lowercased message.
#[verifier::rlimit(50)]
pub proof fn lemma_classify_priority(message: Seq<char>)
    ensures
        classify_message(message) == Some(InternalErrorKind::DriverExtractNotSupported) ==> !contains_text(ascii_lower(message), "upload not supported"@),
        classify_message(message) == Some(InternalErrorKind::NotImplement) ==> !contains_text(ascii_lower(message), "upload not supported"@) && !contains_text(ascii_lower(message), "driver extraction not supported"@),
        classify_message(message) == Some(InternalErrorKind::NotSupport) ==> !contains_text(ascii_lower(message), "upload not supported"@) && !contains_text(ascii_lower(message), "driver extraction not supported"@) && !contains_text(ascii_lower(message), "not implement"@),
        classify_message(message) == Some(InternalErrorKind::RelativePath) ==> !contains_text(ascii_lower(message), "upload not supported"@) && !contains_text(ascii_lower(message), "driver extraction not supported"@) && !contains_text(ascii_lower(message), "not implement"@) && !contains_text(ascii_lower(message), "not support"@),
        classify_message(message) == Some(InternalErrorKind::MoveBetweenTwoStorages) ==> !contains_text(ascii_lower(message), "upload not supported"@) && !contains_text(ascii_lower(message), "driver extraction not supported"@) && !contains_text(ascii_lower(message), "not implement"@) && !contains_text(ascii_lower(message), "not support"@) && !contains_text(ascii_lower(message), "access using relative path is not allowed"@),
        classify_message(message) == Some(InternalErrorKind::MetaNotFound) ==> !contains_text(ascii_lower(message), "upload not supported"@) && !contains_text(ascii_lower(message), "driver extraction not supported"@) && !contains_text(ascii_lower(message), "not implement"@) && !contains_text(ascii_lower(message), "not support"@) && !contains_text(ascii_lower(message), "access using relative path is not allowed"@) && !contains_text(ascii_lower(message), "can't move files between two storages, try to copy"@),
        classify_message(message) == Some(InternalErrorKind::StorageNotFound) ==> !contains_text(ascii_lower(message), "upload not supported"@) && !contains_text(ascii_lower(message), "driver extraction not supported"@) && !contains_text(ascii_lower(message), "not implement"@) && !contains_text(ascii_lower(message), "not support"@) && !contains_text(ascii_lower(message), "access using relative path is not allowed"@) && !contains_text(ascii_lower(message), "can't move files between two storages, try to copy"@) && !contains_text(ascii_lower(message), "meta not found"@),
        classify_message(message) == Some(InternalErrorKind::StreamIncomplete) ==> !contains_text(ascii_lower(message), "upload not supported"@) && !contains_text(ascii_lower(message), "driver extraction not supported"@) && !contains_text(ascii_lower(message), "not implement"@) && !contains_text(ascii_lower(message), "not support"@) && !contains_text(ascii_lower(message), "access using relative path is not allowed"@) && !contains_text(ascii_lower(message), "can't move files between two storages, try to copy"@) && !contains_text(ascii_lower(message), "meta not found"@) && !contains_text(ascii_lower(message), "storage not found"@),
        classify_message(message) == Some(InternalErrorKind::StreamPeekFail) ==> !contains_text(ascii_lower(message), "upload not supported"@) && !contains_text(ascii_lower(message), "driver extraction not supported"@) && !contains_text(ascii_lower(message), "not implement"@) && !contains_text(ascii_lower(message), "not support"@) && !contains_text(ascii_lower(message), "access using relative path is not allowed"@) && !contains_text(ascii_lower(message), "can't move files between two storages, try to copy"@) && !contains_text(ascii_lower(message), "meta not found"@) && !contains_text(ascii_lower(message), "storage not found"@) && !contains_text(ascii_lower(message), "upload/download stream incomplete, possible network issue"@),
        classify_message(message) == Some(InternalErrorKind::UnknownArchiveFormat) ==> !contains_text(ascii_lower(message), "upload not supported"@) && !contains_text(ascii_lower(message), "driver extraction not supported"@) && !contains_text(ascii_lower(message), "not implement"@) && !contains_text(ascii_lower(message), "not support"@) && !contains_text(ascii_lower(message), "access using relative path is not allowed"@) && !contains_text(ascii_lower(message), "can't move files between two storages, try to copy"@) && !contains_text(ascii_lower(message), "meta not found"@) && !contains_text(ascii_lower(message), "storage not found"@) && !contains_text(ascii_lower(message), "upload/download stream incomplete, possible network issue"@) && !contains_text(ascii_lower(message), "streampeekfail"@),
        classify_message(message) == Some(InternalErrorKind::WrongArchivePassword) ==> !contains_text(ascii_lower(message), "upload not supported"@) && !contains_text(ascii_lower(message), "driver extraction not supported"@) && !contains_text(ascii_lower(message), "not implement"@) && !contains_text(ascii_lower(message), "not support"@) && !contains_text(ascii_lower(message), "access using relative path is not allowed"@) && !contains_text(ascii_lower(message), "can't move files between two storages, try to copy"@) && !contains_text(ascii_lower(message), "meta not found"@) && !contains_text(ascii_lower(message), "storage not found"@) && !contains_text(ascii_lower(message), "upload/download stream incomplete, possible network issue"@) && !contains_text(ascii_lower(message), "streampeekfail"@) && !contains_text(ascii_lower(message), "unknown archive format"@),
        classify_message(message) == Some(InternalErrorKind::ObjectNotFound) ==> !contains_text(ascii_lower(message), "upload not supported"@) && !contains_text(ascii_lower(message), "driver extraction not supported"@) && !contains_text(ascii_lower(message), "not implement"@) && !contains_text(ascii_lower(message), "not support"@) && !contains_text(ascii_lower(message), "access using relative path is not allowed"@) && !contains_text(ascii_lower(message), "can't move files between two storages, try to copy"@) && !contains_text(ascii_lower(message), "meta not found"@) && !contains_text(ascii_lower(message), "storage not found"@) && !contains_text(ascii_lower(message), "upload/download stream incomplete, possible network issue"@) && !contains_text(ascii_lower(message), "streampeekfail"@) && !contains_text(ascii_lower(message), "unknown archive format"@) && !contains_text(ascii_lower(message), "wrong archive password"@),
        classify_message(message) == Some(InternalErrorKind::NotFolder) ==> !contains_text(ascii_lower(message), "upload not supported"@) && !contains_text(ascii_lower(message), "driver extraction not supported"@) && !contains_text(ascii_lower(message), "not implement"@) && !contains_text(ascii_lower(message), "not support"@) && !contains_text(ascii_lower(message), "access using relative path is not allowed"@) && !contains_text(ascii_lower(message), "can't move files between two storages, try to copy"@) && !contains_text(ascii_lower(message), "meta not found"@) && !contains_text(ascii_lower(message), "storage not found"@) && !contains_text(ascii_lower(message), "upload/download stream incomplete, possible network issue"@) && !contains_text(ascii_lower(message), "streampeekfail"@) && !contains_text(ascii_lower(message), "unknown archive format"@) && !contains_text(ascii_lower(message), "wrong archive password"@) && !contains_text(ascii_lower(message), "object not found"@),
        classify_message(message) == Some(InternalErrorKind::NotFile) ==> !contains_text(ascii_lower(message), "upload not supported"@) && !contains_text(ascii_lower(message), "driver extraction not supported"@) && !contains_text(ascii_lower(message), "not implement"@) && !contains_text(ascii_lower(message), "not support"@) && !contains_text(ascii_lower(message), "access using relative path is not allowed"@) && !contains_text(ascii_lower(message), "can't move files between two storages, try to copy"@) && !contains_text(ascii_lower(message), "meta not found"@) && !contains_text(ascii_lower(message), "storage not found"@) && !contains_text(ascii_lower(message), "upload/download stream incomplete, possible network issue"@) && !contains_text(ascii_lower(message), "streampeekfail"@) && !contains_text(ascii_lower(message), "unknown archive format"@) && !contains_text(ascii_lower(message), "wrong archive password"@) && !contains_text(ascii_lower(message), "object not found"@) && !contains_text(ascii_lower(message), "not a folder"@),
        classify_message(message) == Some(InternalErrorKind::EmptyUsername) ==> !contains_text(ascii_lower(message), "upload not supported"@) && !contains_text(ascii_lower(message), "driver extraction not supported"@) && !contains_text(ascii_lower(message), "not implement"@) && !contains_text(ascii_lower(message), "not support"@) && !contains_text(ascii_lower(message), "access using relative path is not allowed"@) && !contains_text(ascii_lower(message), "can't move files between two storages, try to copy"@) && !contains_text(ascii_lower(message), "meta not found"@) && !contains_text(ascii_lower(message), "storage not found"@) && !contains_text(ascii_lower(message), "upload/download stream incomplete, possible network issue"@) && !contains_text(ascii_lower(message), "streampeekfail"@) && !contains_text(ascii_lower(message), "unknown archive format"@) && !contains_text(ascii_lower(message), "wrong archive password"@) && !contains_text(ascii_lower(message), "object not found"@) && !contains_text(ascii_lower(message), "not a folder"@) && !contains_text(ascii_lower(message), "not a file"@),
        classify_message(message) == Some(InternalErrorKind::EmptyPassword) ==> !contains_text(ascii_lower(message), "upload not supported"@) && !contains_text(ascii_lower(message), "driver extraction not supported"@) && !contains_text(ascii_lower(message), "not implement"@) && !contains_text(ascii_lower(message), "not support"@) && !contains_text(ascii_lower(message), "access using relative path is not allowed"@) && !contains_text(ascii_lower(message), "can't move files between two storages, try to copy"@) && !contains_text(ascii_lower(message), "meta not found"@) && !contains_text(ascii_lower(message), "storage not found"@) && !contains_text(ascii_lower(message), "upload/download stream incomplete, possible network issue"@) && !contains_text(ascii_lower(message), "streampeekfail"@) && !contains_text(ascii_lower(message), "unknown archive format"@) && !contains_text(ascii_lower(message), "wrong archive password"@) && !contains_text(ascii_lower(message), "object not found"@) && !contains_text(ascii_lower(message), "not a folder"@) && !contains_text(ascii_lower(message), "not a file"@) && !contains_text(ascii_lower(message), "username is empty"@),
        classify_message(message) == Some(InternalErrorKind::WrongPassword) ==> !contains_text(ascii_lower(message), "upload not supported"@) && !contains_text(ascii_lower(message), "driver extraction not supported"@) && !contains_text(ascii_lower(message), "not implement"@) && !contains_text(ascii_lower(message), "not support"@) && !contains_text(ascii_lower(message), "access using relative path is not allowed"@) && !contains_text(ascii_lower(message), "can't move files between two storages, try to copy"@) && !contains_text(ascii_lower(message), "meta not found"@) && !contains_text(ascii_lower(message), "storage not found"@) && !contains_text(ascii_lower(message), "upload/download stream incomplete, possible network issue"@) && !contains_text(ascii_lower(message), "streampeekfail"@) && !contains_text(ascii_lower(message), "unknown archive format"@) && !contains_text(ascii_lower(message), "wrong archive password"@) && !contains_text(ascii_lower(message), "object not found"@) && !contains_text(ascii_lower(message), "not a folder"@) && !contains_text(ascii_lower(message), "not a file"@) && !contains_text(ascii_lower(message), "username is empty"@) && !contains_text(ascii_lower(message), "password is empty"@),
        classify_message(message) == Some(InternalErrorKind::DeleteAdminOrGuest) ==> !contains_text(ascii_lower(message), "upload not supported"@) && !contains_text(ascii_lower(message), "driver extraction not supported"@) && !contains_text(ascii_lower(message), "not implement"@) && !contains_text(ascii_lower(message), "not support"@) && !contains_text(ascii_lower(message), "access using relative path is not allowed"@) && !contains_text(ascii_lower(message), "can't move files between two storages, try to copy"@) && !contains_text(ascii_lower(message), "meta not found"@) && !contains_text(ascii_lower(message), "storage not found"@) && !contains_text(ascii_lower(message), "upload/download stream incomplete, possible network issue"@) && !contains_text(ascii_lower(message), "streampeekfail"@) && !contains_text(ascii_lower(message), "unknown archive format"@) && !contains_text(ascii_lower(message), "wrong archive password"@) && !contains_text(ascii_lower(message), "object not found"@) && !contains_text(ascii_lower(message), "not a folder"@) && !contains_text(ascii_lower(message), "not a file"@) && !contains_text(ascii_lower(message), "username is empty"@) && !contains_text(ascii_lower(message), "password is empty"@) && !contains_text(ascii_lower(message), "password is incorrect"@),
        classify_message(message) == Some(InternalErrorKind::SearchNotAvailable) ==> !contains_text(ascii_lower(message), "upload not supported"@) && !contains_text(ascii_lower(message), "driver extraction not supported"@) && !contains_text(ascii_lower(message), "not implement"@) && !contains_text(ascii_lower(message), "not support"@) && !contains_text(ascii_lower(message), "access using relative path is not allowed"@) && !contains_text(ascii_lower(message), "can't move files between two storages, try to copy"@) && !contains_text(ascii_lower(message), "meta not found"@) && !contains_text(ascii_lower(message), "storage not found"@) && !contains_text(ascii_lower(message), "upload/download stream incomplete, possible network issue"@) && !contains_text(ascii_lower(message), "streampeekfail"@) && !contains_text(ascii_lower(message), "unknown archive format"@) && !contains_text(ascii_lower(message), "wrong archive password"@) && !contains_text(ascii_lower(message), "object not found"@) && !contains_text(ascii_lower(message), "not a folder"@) && !contains_text(ascii_lower(message), "not a file"@) && !contains_text(ascii_lower(message), "username is empty"@) && !contains_text(ascii_lower(message), "password is empty"@) && !contains_text(ascii_lower(message), "password is incorrect"@) && !contains_text(ascii_lower(message), "cannot delete admin or guest"@),
        classify_message(message) == Some(InternalErrorKind::BuildIndexIsRunning) ==> !contains_text(ascii_lower(message), "upload not supported"@) && !contains_text(ascii_lower(message), "driver extraction not supported"@) && !contains_text(ascii_lower(message), "not implement"@) && !contains_text(ascii_lower(message), "not support"@) && !contains_text(ascii_lower(message), "access using relative path is not allowed"@) && !contains_text(ascii_lower(message), "can't move files between two storages, try to copy"@) && !contains_text(ascii_lower(message), "meta not found"@) && !contains_text(ascii_lower(message), "storage not found"@) && !contains_text(ascii_lower(message), "upload/download stream incomplete, possible network issue"@) && !contains_text(ascii_lower(message), "streampeekfail"@) && !contains_text(ascii_lower(message), "unknown archive format"@) && !contains_text(ascii_lower(message), "wrong archive password"@) && !contains_text(ascii_lower(message), "object not found"@) && !contains_text(ascii_lower(message), "not a folder"@) && !contains_text(ascii_lower(message), "not a file"@) && !contains_text(ascii_lower(message), "username is empty"@) && !contains_text(ascii_lower(message), "password is empty"@) && !contains_text(ascii_lower(message), "password is incorrect"@) && !contains_text(ascii_lower(message), "cannot delete admin or guest"@) && !contains_text(ascii_lower(message), "search not available"@),
        classify_message(message) == Some(InternalErrorKind::PermissionDenied) ==> !contains_text(ascii_lower(message), "upload not supported"@) && !contains_text(ascii_lower(message), "driver extraction not supported"@) && !contains_text(ascii_lower(message), "not implement"@) && !contains_text(ascii_lower(message), "not support"@) && !contains_text(ascii_lower(message), "access using relative path is not allowed"@) && !contains_text(ascii_lower(message), "can't move files between two storages, try to copy"@) && !contains_text(ascii_lower(message), "meta not found"@) && !contains_text(ascii_lower(message), "storage not found"@) && !contains_text(ascii_lower(message), "upload/download stream incomplete, possible network issue"@) && !contains_text(ascii_lower(message), "streampeekfail"@) && !contains_text(ascii_lower(message), "unknown archive format"@) && !contains_text(ascii_lower(message), "wrong archive password"@) && !contains_text(ascii_lower(message), "object not found"@) && !contains_text(ascii_lower(message), "not a folder"@) && !contains_text(ascii_lower(message), "not a file"@) && !contains_text(ascii_lower(message), "username is empty"@) && !contains_text(ascii_lower(message), "password is empty"@) && !contains_text(ascii_lower(message), "password is incorrect"@) && !contains_text(ascii_lower(message), "cannot delete admin or guest"@) && !contains_text(ascii_lower(message), "search not available"@) && !contains_text(ascii_lower(message), "build index is running, please try later"@),
        classify_message(message) == Some(InternalErrorKind::InvalidName) ==> !contains_text(ascii_lower(message), "upload not supported"@) && !contains_text(ascii_lower(message), "driver extraction not supported"@) && !contains_text(ascii_lower(message), "not implement"@) && !contains_text(ascii_lower(message), "not support"@) && !contains_text(ascii_lower(message), "access using relative path is not allowed"@) && !contains_text(ascii_lower(message), "can't move files between two storages, try to copy"@) && !contains_text(ascii_lower(message), "meta not found"@) && !contains_text(ascii_lower(message), "storage not found"@) && !contains_text(ascii_lower(message), "upload/download stream incomplete, possible network issue"@) && !contains_text(ascii_lower(message), "streampeekfail"@) && !contains_text(ascii_lower(message), "unknown archive format"@) && !contains_text(ascii_lower(message), "wrong archive password"@) && !contains_text(ascii_lower(message), "object not found"@) && !contains_text(ascii_lower(message), "not a folder"@) && !contains_text(ascii_lower(message), "not a file"@) && !contains_text(ascii_lower(message), "username is empty"@) && !contains_text(ascii_lower(message), "password is empty"@) && !contains_text(ascii_lower(message), "password is incorrect"@) && !contains_text(ascii_lower(message), "cannot delete admin or guest"@) && !contains_text(ascii_lower(message), "search not available"@) && !contains_text(ascii_lower(message), "build index is running, please try later"@) && !contains_text(ascii_lower(message), "permission denied"@),
        classify_message(message) == Some(InternalErrorKind::EmptyToken) ==> !contains_text(ascii_lower(message), "upload not supported"@) && !contains_text(ascii_lower(message), "driver extraction not supported"@) && !contains_text(ascii_lower(message), "not implement"@) && !contains_text(ascii_lower(message), "not support"@) && !contains_text(ascii_lower(message), "access using relative path is not allowed"@) && !contains_text(ascii_lower(message), "can't move files between two storages, try to copy"@) && !contains_text(ascii_lower(message), "meta not found"@) && !contains_text(ascii_lower(message), "storage not found"@) && !contains_text(ascii_lower(message), "upload/download stream incomplete, possible network issue"@) && !contains_text(ascii_lower(message), "streampeekfail"@) && !contains_text(ascii_lower(message), "unknown archive format"@) && !contains_text(ascii_lower(message), "wrong archive password"@) && !contains_text(ascii_lower(message), "object not found"@) && !contains_text(ascii_lower(message), "not a folder"@) && !contains_text(ascii_lower(message), "not a file"@) && !contains_text(ascii_lower(message), "username is empty"@) && !contains_text(ascii_lower(message), "password is empty"@) && !contains_text(ascii_lower(message), "password is incorrect"@) && !contains_text(ascii_lower(message), "cannot delete admin or guest"@) && !contains_text(ascii_lower(message), "search not available"@) && !contains_text(ascii_lower(message), "build index is running, please try later"@) && !contains_text(ascii_lower(message), "permission denied"@) && !contains_text(ascii_lower(message), "invalid file name"@),
        classify_message(message) == Some(InternalErrorKind::LinkIsDir) ==> !contains_text(ascii_lower(message), "upload not supported"@) && !contains_text(ascii_lower(message), "driver extraction not supported"@) && !contains_text(ascii_lower(message), "not implement"@) && !contains_text(ascii_lower(message), "not support"@) && !contains_text(ascii_lower(message), "access using relative path is not allowed"@) && !contains_text(ascii_lower(message), "can't move files between two storages, try to copy"@) && !contains_text(ascii_lower(message), "meta not found"@) && !contains_text(ascii_lower(message), "storage not found"@) && !contains_text(ascii_lower(message), "upload/download stream incomplete, possible network issue"@) && !contains_text(ascii_lower(message), "streampeekfail"@) && !contains_text(ascii_lower(message), "unknown archive format"@) && !contains_text(ascii_lower(message), "wrong archive password"@) && !contains_text(ascii_lower(message), "object not found"@) && !contains_text(ascii_lower(message), "not a folder"@) && !contains_text(ascii_lower(message), "not a file"@) && !contains_text(ascii_lower(message), "username is empty"@) && !contains_text(ascii_lower(message), "password is empty"@) && !contains_text(ascii_lower(message), "password is incorrect"@) && !contains_text(ascii_lower(message), "cannot delete admin or guest"@) && !contains_text(ascii_lower(message), "search not available"@) && !contains_text(ascii_lower(message), "build index is running, please try later"@) && !contains_text(ascii_lower(message), "permission denied"@) && !contains_text(ascii_lower(message), "invalid file name"@) && !contains_text(ascii_lower(message), "empty token"@),
        classify_message(message) == Some(InternalErrorKind::ErrChangeDefaultRole) ==> !contains_text(ascii_lower(message), "upload not supported"@) && !contains_text(ascii_lower(message), "driver extraction not supported"@) && !contains_text(ascii_lower(message), "not implement"@) && !contains_text(ascii_lower(message), "not support"@) && !contains_text(ascii_lower(message), "access using relative path is not allowed"@) && !contains_text(ascii_lower(message), "can't move files between two storages, try to copy"@) && !contains_text(ascii_lower(message), "meta not found"@) && !contains_text(ascii_lower(message), "storage not found"@) && !contains_text(ascii_lower(message), "upload/download stream incomplete, possible network issue"@) && !contains_text(ascii_lower(message), "streampeekfail"@) && !contains_text(ascii_lower(message), "unknown archive format"@) && !contains_text(ascii_lower(message), "wrong archive password"@) && !contains_text(ascii_lower(message), "object not found"@) && !contains_text(ascii_lower(message), "not a folder"@) && !contains_text(ascii_lower(message), "not a file"@) && !contains_text(ascii_lower(message), "username is empty"@) && !contains_text(ascii_lower(message), "password is empty"@) && !contains_text(ascii_lower(message), "password is incorrect"@) && !contains_text(ascii_lower(message), "cannot delete admin or guest"@) && !contains_text(ascii_lower(message), "search not available"@) && !contains_text(ascii_lower(message), "build index is running, please try later"@) && !contains_text(ascii_lower(message), "permission denied"@) && !contains_text(ascii_lower(message), "invalid file name"@) && !contains_text(ascii_lower(message), "empty token"@) && !contains_text(ascii_lower(message), "link is dir"@),
        classify_message(message) == Some(InternalErrorKind::TooManyDevices) ==> !contains_text(ascii_lower(message), "upload not supported"@) && !contains_text(ascii_lower(message), "driver extraction not supported"@) && !contains_text(ascii_lower(message), "not implement"@) && !contains_text(ascii_lower(message), "not support"@) && !contains_text(ascii_lower(message), "access using relative path is not allowed"@) && !contains_text(ascii_lower(message), "can't move files between two storages, try to copy"@) && !contains_text(ascii_lower(message), "meta not found"@) && !contains_text(ascii_lower(message), "storage not found"@) && !contains_text(ascii_lower(message), "upload/download stream incomplete, possible network issue"@) && !contains_text(ascii_lower(message), "streampeekfail"@) && !contains_text(ascii_lower(message), "unknown archive format"@) && !contains_text(ascii_lower(message), "wrong archive password"@) && !contains_text(ascii_lower(message), "object not found"@) && !contains_text(ascii_lower(message), "not a folder"@) && !contains_text(ascii_lower(message), "not a file"@) && !contains_text(ascii_lower(message), "username is empty"@) && !contains_text(ascii_lower(message), "password is empty"@) && !contains_text(ascii_lower(message), "password is incorrect"@) && !contains_text(ascii_lower(message), "cannot delete admin or guest"@) && !contains_text(ascii_lower(message), "search not available"@) && !contains_text(ascii_lower(message), "build index is running, please try later"@) && !contains_text(ascii_lower(message), "permission denied"@) && !contains_text(ascii_lower(message), "invalid file name"@) && !contains_text(ascii_lower(message), "empty token"@) && !contains_text(ascii_lower(message), "link is dir"@) && !contains_text(ascii_lower(message), "cannot modify admin role"@),
        classify_message(message) == Some(InternalErrorKind::SessionInactive) ==> !contains_text(ascii_lower(message), "upload not supported"@) && !contains_text(ascii_lower(message), "driver extraction not supported"@) && !contains_text(ascii_lower(message), "not implement"@) && !contains_text(ascii_lower(message), "not support"@) && !contains_text(ascii_lower(message), "access using relative path is not allowed"@) && !contains_text(ascii_lower(message), "can't move files between two storages, try to copy"@) && !contains_text(ascii_lower(message), "meta not found"@) && !contains_text(ascii_lower(message), "storage not found"@) && !contains_text(ascii_lower(message), "upload/download stream incomplete, possible network issue"@) && !contains_text(ascii_lower(message), "streampeekfail"@) && !contains_text(ascii_lower(message), "unknown archive format"@) && !contains_text(ascii_lower(message), "wrong archive password"@) && !contains_text(ascii_lower(message), "object not found"@) && !contains_text(ascii_lower(message), "not a folder"@) && !contains_text(ascii_lower(message), "not a file"@) && !contains_text(ascii_lower(message), "username is empty"@) && !contains_text(ascii_lower(message), "password is empty"@) && !contains_text(ascii_lower(message), "password is incorrect"@) && !contains_text(ascii_lower(message), "cannot delete admin or guest"@) && !contains_text(ascii_lower(message), "search not available"@) && !contains_text(ascii_lower(message), "build index is running, please try later"@) && !contains_text(ascii_lower(message), "permission denied"@) && !contains_text(ascii_lower(message), "invalid file name"@) && !contains_text(ascii_lower(message), "empty token"@) && !contains_text(ascii_lower(message), "link is dir"@) && !contains_text(ascii_lower(message), "cannot modify admin role"@) && !contains_text(ascii_lower(message), "too many active devices"@),
{
    lemma_classify_meaning(message);
    let lowered = ascii_lower(message);
    assert(mapping_needle(0) == "upload not supported"@ && mapping_kind(0) == InternalErrorKind::UploadNotSupported);
    assert(mapping_needle(1) == "driver extraction not supported"@ && mapping_kind(1) == InternalErrorKind::DriverExtractNotSupported);
    assert(mapping_needle(2) == "not implement"@ && mapping_kind(2) == InternalErrorKind::NotImplement);
    assert(mapping_needle(3) == "not support"@ && mapping_kind(3) == InternalErrorKind::NotSupport);
    assert(mapping_needle(4) == "access using relative path is not allowed"@ && mapping_kind(4) == InternalErrorKind::RelativePath);
    assert(mapping_needle(5) == "can't move files between two storages, try to copy"@ && mapping_kind(5) == InternalErrorKind::MoveBetweenTwoStorages);
    assert(mapping_needle(6) == "meta not found"@ && mapping_kind(6) == InternalErrorKind::MetaNotFound);
    assert(mapping_needle(7) == "storage not found"@ && mapping_kind(7) == InternalErrorKind::StorageNotFound);
    assert(mapping_needle(8) == "upload/download stream incomplete, possible network issue"@ && mapping_kind(8) == InternalErrorKind::StreamIncomplete);
    assert(mapping_needle(9) == "streampeekfail"@ && mapping_kind(9) == InternalErrorKind::StreamPeekFail);
    assert(mapping_needle(10) == "unknown archive format"@ && mapping_kind(10) == InternalErrorKind::UnknownArchiveFormat);
    assert(mapping_needle(11) == "wrong archive password"@ && mapping_kind(11) == InternalErrorKind::WrongArchivePassword);
    assert(mapping_needle(12) == "object not found"@ && mapping_kind(12) == InternalErrorKind::ObjectNotFound);
    assert(mapping_needle(13) == "not a folder"@ && mapping_kind(13) == InternalErrorKind::NotFolder);
    assert(mapping_needle(14) == "not a file"@ && mapping_kind(14) == InternalErrorKind::NotFile);
    assert(mapping_needle(15) == "username is empty"@ && mapping_kind(15) == InternalErrorKind::EmptyUsername);
    assert(mapping_needle(16) == "password is empty"@ && mapping_kind(16) == InternalErrorKind::EmptyPassword);
    assert(mapping_needle(17) == "password is incorrect"@ && mapping_kind(17) == InternalErrorKind::WrongPassword);
    assert(mapping_needle(18) == "cannot delete admin or guest"@ && mapping_kind(18) == InternalErrorKind::DeleteAdminOrGuest);
    assert(mapping_needle(19) == "search not available"@ && mapping_kind(19) == InternalErrorKind::SearchNotAvailable);
    assert(mapping_needle(20) == "build index is running, please try later"@ && mapping_kind(20) == InternalErrorKind::BuildIndexIsRunning);
    assert(mapping_needle(21) == "permission denied"@ && mapping_kind(21) == InternalErrorKind::PermissionDenied);
    assert(mapping_needle(22) == "invalid file name"@ && mapping_kind(22) == InternalErrorKind::InvalidName);
    assert(mapping_needle(23) == "empty token"@ && mapping_kind(23) == InternalErrorKind::EmptyToken);
    assert(mapping_needle(24) == "link is dir"@ && mapping_kind(24) == InternalErrorKind::LinkIsDir);
    assert(mapping_needle(25) == "cannot modify admin role"@ && mapping_kind(25) == InternalErrorKind::ErrChangeDefaultRole);
    assert(mapping_needle(26) == "too many active devices"@ && mapping_kind(26) == InternalErrorKind::TooManyDevices);
    assert(mapping_needle(27) == "session inactive"@ && mapping_kind(27) == InternalErrorKind::SessionInactive);
    if let Some(kind) = classify_message(message) {
        let i = choose|i: int|
            0 <= i < MAPPING_COUNT && mapping_kind(i) == kind && contains_text(
                lowered,
                #[trigger] mapping_needle(i),
            ) && forall|j: int|
                0 <= j < i ==> !contains_text(lowered, #[trigger] mapping_needle(j));
        assert(0 <= i < 28);
    }
}

} // verus!
