//! Data models for `/api/auth/*`.

use vstd::prelude::*;

verus! {

/// Request body for `/api/auth/login` and `/api/auth/login/hash`.
#[derive(Debug, Clone, PartialEq, Eq)]
pub struct LoginReq {
    /// Username.
    pub username: String,
    /// Password, or the static password hash for `/api/auth/login/hash`.
    pub password: String,
    /// Optional two-factor code.
    pub otp_code: Option<String>,
}

/// Response payload of the login endpoints.
#[derive(Debug, Clone, PartialEq, Eq)]
pub struct LoginResp {
    /// Session token to send in the `Authorization` header.
    pub token: String,
    /// Device key issued by newer server versions.
    pub device_key: Option<String>,
}

} // verus!
