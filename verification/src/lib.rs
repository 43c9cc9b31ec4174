//! Client library for the AList v3 API: response envelopes, status codes,
//! error classification, request decisions and the data models of the API.

pub mod client;
pub mod error;
pub mod foreign;
pub mod models;
pub mod text;

pub use client::{Authentication, Client};
pub use error::{ApiStatusCode, ClientError, InternalErrorKind, Result};
