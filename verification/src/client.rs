//! The client's configuration and session state, and the decisions that the
//! request cycle makes: which URL a request goes to, which headers it carries,
//! how a response is decoded, and when an expired session is refreshed.
//!
//! Sending requests, waiting and reading responses is done by the asynchronous
//! client, which hands the outcomes of that work to the functions here.

pub mod rate_limit;
pub mod upload;

use crate::error::{
    classify_message, status_of_code, ApiStatusCode, ClientError, InternalErrorKind,
};
use crate::foreign::{join_url, parse_url, url_join_result, url_parse_result};
use crate::models::{ApiResponse, LoginReq};
use crate::text::{
    chars_equal, chars_of, lemma_trim_end_char, lemma_trim_start_char, trim_end_char,
    trim_end_matches_char, trim_start_char, trim_start_matches_char, trim_whitespace,
    trimmed_chars,
};
use vstd::prelude::*;

pub use rate_limit::RequestRateLimit;
pub use upload::UploadPut;

verus! {

broadcast use vstd::string::group_string_axioms;

/// Stored authentication material used to refresh the current token.
#[derive(Debug, PartialEq, Eq)]
pub enum Authentication {
    /// Login with username and password when the current token is missing or expired.
    UsernamePassword { username: String, password: String, otp_code: Option<String> },
    /// Re-apply this token when the current token is missing or rejected.
    Token(String),
}

/// The text content of an [`Authentication`].
pub enum AuthenticationView {
    /// Username, password and optional two-factor code.
    UsernamePassword { username: Seq<char>, password: Seq<char>, otp_code: Option<Seq<char>> },
    /// A fixed token.
    Token(Seq<char>),
}

/// The text of an optional string.
pub open spec fn opt_text(o: Option<String>) -> Option<Seq<char>> {
    match o {
        Some(s) => Some(s@),
        None => None,
    }
}

/// A copy of an optional string.
pub fn clone_opt_string(o: &Option<String>) -> (r: Option<String>)
    ensures
        opt_text(r) == opt_text(*o),
{
    match o {
        Some(s) => Some(s.clone()),
        None => None,
    }
}

/// An optional string made from an optional string slice.
pub fn opt_str_to_string(o: Option<&str>) -> (r: Option<String>)
    ensures
        opt_text(r) == match o {
            Some(s) => Some(s@),
            None => None::<Seq<char>>,
        },
{
    match o {
        Some(s) => Some(s.to_string()),
        None => None,
    }
}

impl View for Authentication {
    type V = AuthenticationView;

    open spec fn view(&self) -> AuthenticationView {
        match self {
            Authentication::UsernamePassword { username, password, otp_code } => {
                AuthenticationView::UsernamePassword {
                    username: username@,
                    password: password@,
                    otp_code: opt_text(*otp_code),
                }
            },
            Authentication::Token(token) => AuthenticationView::Token(token@),
        }
    }
}

impl Clone for Authentication {
    fn clone(&self) -> (r: Self)
        ensures
            r@ == self@,
    {
        match self {
            Authentication::UsernamePassword { username, password, otp_code } => {
                Authentication::UsernamePassword {
                    username: username.clone(),
                    password: password.clone(),
                    otp_code: clone_opt_string(otp_code),
                }
            },
            Authentication::Token(token) => Authentication::Token(token.clone()),
        }
    }
}

impl Authentication {
    /// Create username/password authentication.
    pub fn username_password(username: &str, password: &str, otp_code: Option<&str>) -> (auth:
        Self)
        ensures
            auth@ == (AuthenticationView::UsernamePassword {
                username: username@,
                password: password@,
                otp_code: match otp_code {
                    Some(code) => Some(code@),
                    None => None,
                },
            }),
    {
        Authentication::UsernamePassword {
            username: username.to_string(),
            password: password.to_string(),
            otp_code: opt_str_to_string(otp_code),
        }
    }

    /// Create token authentication.
    pub fn token(token: &str) -> (auth: Self)
        ensures
            auth@ == AuthenticationView::Token(token@),
    {
        Authentication::Token(token.to_string())
    }
}

/// The authentication an optional `Authentication` holds, by its text.
pub open spec fn opt_auth_view(a: Option<Authentication>) -> Option<AuthenticationView> {
    match a {
        Some(auth) => Some(auth@),
        None => None,
    }
}

/// Configuration and session state of an AList client.
///
/// `base_url` is the serialization of the parsed site URL, which always ends
/// with `/`; API paths are resolved under `api/` against it.
#[derive(Debug)]
pub struct Client {
    base_url: String,
    token: Option<String>,
    authentication: Option<Authentication>,
    api_request_interval: Option<u128>,
}

/// The state of a [`Client`] as plain values.
pub struct ClientView {
    /// Serialization of the site URL.
    pub base_url: Seq<char>,
    /// Token sent in the `Authorization` header, if any.
    pub token: Option<Seq<char>>,
    /// Material used to refresh the token, if any.
    pub authentication: Option<AuthenticationView>,
    /// Minimum interval between API requests, in nanoseconds.
    pub api_request_interval: Option<u128>,
}

impl View for Client {
    type V = ClientView;

    closed spec fn view(&self) -> ClientView {
        ClientView {
            base_url: self.base_url@,
            token: opt_text(self.token),
            authentication: opt_auth_view(self.authentication),
            api_request_interval: self.api_request_interval,
        }
    }
}

/// The text that is handed to the URL parser for a site URL: the URL with its
/// trailing slashes replaced by exactly one.
pub open spec fn normalized_base_url(base_url: Seq<char>) -> Seq<char> {
    trim_end_char(base_url, '/') + seq!['/']
}

/// The state of a freshly created client for a site URL, or `None` where the
/// URL does not parse.
pub open spec fn new_client_view(base_url: Seq<char>) -> Option<ClientView> {
    match url_parse_result(normalized_base_url(base_url)) {
        Some(url) => Some(
            ClientView { base_url: url, token: None, authentication: None, api_request_interval: None },
        ),
        None => None,
    }
}

/// The relative reference that an API path is resolved as: `api/` followed by
/// the path without its leading slashes.
pub open spec fn api_reference(path: Seq<char>) -> Seq<char> {
    "api/"@ + trim_start_char(path, '/')
}

/// Whether an HTTP status code is a success (200 to 299).
pub open spec fn http_success(status: u16) -> bool {
    200 <= status < 300
}

/// Whether an HTTP status code is a success (200 to 299), as
/// `reqwest::StatusCode::is_success` decides it.
pub fn status_is_success(status: u16) -> (r: bool)
    ensures
        r == http_success(status),
        r <==> 200 <= status && status <= 299,
{
    200 <= status && status < 300
}

/// Whether an error calls for logging in again: the server rejected the
/// session, in the envelope (401 or 403) or in the HTTP status (401 or 403).
pub open spec fn is_auth_rejection(err: ClientError) -> bool {
    match err {
        ClientError::Api { code, .. } => code == ApiStatusCode::Unauthorized || code
            == ApiStatusCode::Forbidden,
        ClientError::HttpStatus { status, .. } => status == 401 || status == 403,
        _ => false,
    }
}

/// Whether a client in state `c` refreshes its session after `err`: the
/// server rejected the session and there is authentication material to refresh
/// it with (log in again, or re-apply the stored token).
pub open spec fn wants_refresh(c: ClientView, err: ClientError) -> bool {
    &&& c.authentication is Some
    &&& is_auth_rejection(err)
}

/// What the request cycle does next with a decoded response.
#[derive(Debug)]
pub enum RequestStep {
    /// Hand this result to the caller.
    Finish(Result<serde_json::Value, ClientError>),
    /// Refresh the session (log in again, or re-apply the stored token), then
    /// send the request once more.
    RefreshThenRetry,
}

/// The step the request cycle takes after a decoded response, for a client in
/// state `c`, where `is_retry` tells whether the request was already retried
/// after a refresh.
pub open spec fn request_step_spec(
    c: ClientView,
    is_retry: bool,
    decoded: Result<serde_json::Value, ClientError>,
) -> RequestStep {
    match decoded {
        Ok(value) => RequestStep::Finish(Ok(value)),
        Err(err) => if !is_retry && wants_refresh(c, err) {
            RequestStep::RefreshThenRetry
        } else {
            RequestStep::Finish(Err(err))
        },
    }
}

/// Whether a response decodes to a value: its HTTP status is a success and
/// its body is an envelope with code 200.
pub open spec fn decoded_value_ok(
    status: u16,
    envelope: core::result::Result<ApiResponse<serde_json::Value>, serde_json::Error>,
) -> bool {
    http_success(status) && (envelope matches Ok(env) && env.code == 200)
}

impl Client {
    /// Create a client from an AList site URL.
    ///
    /// The URL may include trailing slashes; request paths are always generated
    /// under `/api`.
    pub fn new(base_url: &str) -> (r: Result<Self, ClientError>)
        ensures
            match r {
                Ok(client) => new_client_view(base_url@) == Some(client@),
                Err(err) => new_client_view(base_url@) is None && err is Url,
            },
    {
        let trimmed = trim_end_matches_char(base_url, '/');
        let normalized = trimmed.to_string().concat("/");
        proof {
            reveal_strlit("/");
            assert(normalized@ == normalized_base_url(base_url@));
        }
        match parse_url(normalized.as_str()) {
            Ok(url) => Ok(
                Client { base_url: url, token: None, authentication: None, api_request_interval: None },
            ),
            Err(err) => Err(ClientError::Url(err)),
        }
    }

    /// Use refreshable authentication credentials on this client.
    pub fn with_authentication(self, authentication: Authentication) -> (client: Self)
        ensures
            client@.base_url == self@.base_url,
            client@.api_request_interval == self@.api_request_interval,
            client@.authentication == Some(authentication@),
            client@.token == match authentication@ {
                AuthenticationView::Token(token) => Some(token),
                _ => self@.token,
            },
    {
        let mut client = self;
        client.set_authentication(authentication);
        client
    }

    /// Create a client with token authentication.
    pub fn with_token(base_url: &str, token: &str) -> (r: Result<Self, ClientError>)
        ensures
            match r {
                Ok(client) => new_client_view(base_url@) matches Some(fresh) && client@
                    == (ClientView {
                    token: Some(token@),
                    authentication: Some(AuthenticationView::Token(token@)),
                    ..fresh
                }),
                Err(err) => new_client_view(base_url@) is None && err is Url,
            },
    {
        let client = Client::new(base_url)?;
        Ok(client.with_authentication(Authentication::token(token)))
    }

    /// Return the minimum interval, in nanoseconds, enforced between API requests.
    ///
    /// `None` means requests are sent without client-side rate limiting.
    pub fn api_request_interval(&self) -> (interval: Option<u128>)
        ensures
            interval == self@.api_request_interval,
    {
        self.api_request_interval
    }

    /// Configure the minimum interval, in nanoseconds, between API requests.
    ///
    /// `None` or zero disables client-side rate limiting.
    pub fn set_api_request_interval(&mut self, interval: Option<u128>)
        ensures
            final(self)@.api_request_interval == match interval {
                Some(n) => if n == 0 {
                    None
                } else {
                    Some(n)
                },
                None => None,
            },
            final(self)@.base_url == old(self)@.base_url,
            final(self)@.token == old(self)@.token,
            final(self)@.authentication == old(self)@.authentication,
    {
        self.api_request_interval = match interval {
            Some(n) => if n == 0 {
                None
            } else {
                Some(n)
            },
            None => None,
        };
    }

    /// Configure the minimum interval between API requests while building a client.
    ///
    /// `None` or zero disables client-side rate limiting.
    pub fn with_api_request_interval(self, interval: Option<u128>) -> (client: Self)
        ensures
            client@.api_request_interval == match interval {
                Some(n) => if n == 0 {
                    None
                } else {
                    Some(n)
                },
                None => None,
            },
            client@.base_url == self@.base_url,
            client@.token == self@.token,
            client@.authentication == self@.authentication,
    {
        let mut client = self;
        client.set_api_request_interval(interval);
        client
    }

    /// Return the current token, if any.
    pub fn token(&self) -> (token: Option<String>)
        ensures
            opt_text(token) == self@.token,
    {
        clone_opt_string(&self.token)
    }

    /// Return the configured refresh authentication, if any.
    pub fn authentication(&self) -> (authentication: Option<Authentication>)
        ensures
            opt_auth_view(authentication) == self@.authentication,
    {
        match &self.authentication {
            Some(auth) => Some(auth.clone()),
            None => None,
        }
    }

    /// Set authentication material used to refresh the current token.
    ///
    /// Token authentication also becomes the current token; username/password
    /// authentication leaves the current token as it is.
    pub fn set_authentication(&mut self, authentication: Authentication)
        ensures
            final(self)@.authentication == Some(authentication@),
            final(self)@.token == match authentication@ {
                AuthenticationView::Token(token) => Some(token),
                _ => old(self)@.token,
            },
            final(self)@.base_url == old(self)@.base_url,
            final(self)@.api_request_interval == old(self)@.api_request_interval,
    {
        if let Authentication::Token(token) = &authentication {
            self.replace_token(Some(token.clone()));
        }
        self.authentication = Some(authentication);
    }

    /// Clear refresh authentication without clearing the current token.
    pub fn clear_authentication(&mut self)
        ensures
            final(self)@.authentication is None,
            final(self)@.token == old(self)@.token,
            final(self)@.base_url == old(self)@.base_url,
            final(self)@.api_request_interval == old(self)@.api_request_interval,
    {
        self.authentication = None;
    }

    /// Replace the current token.
    pub fn replace_token(&mut self, token: Option<String>)
        ensures
            final(self)@.token == opt_text(token),
            final(self)@.authentication == old(self)@.authentication,
            final(self)@.base_url == old(self)@.base_url,
            final(self)@.api_request_interval == old(self)@.api_request_interval,
    {
        self.token = token;
    }

    /// Return the base site URL.
    pub fn base_url(&self) -> (url: &str)
        ensures
            url@ == self@.base_url,
    {
        self.base_url.as_str()
    }

    /// Build an API URL from a path such as `/fs/list`.
    pub fn api_url(&self, path: &str) -> (r: Result<String, ClientError>)
        ensures
            match r {
                Ok(url) => url_join_result(self@.base_url, api_reference(path@)) == Some(url@),
                Err(err) => url_join_result(self@.base_url, api_reference(path@)) is None
                    && err is Url,
            },
    {
        let trimmed = trim_start_matches_char(path, '/');
        let reference = "api/".to_string().concat(trimmed);
        match join_url(self.base_url.as_str(), reference.as_str()) {
            Ok(url) => Ok(url),
            Err(err) => Err(ClientError::Url(err)),
        }
    }

    /// The `Authorization` header a request carries: the current token, if any.
    pub fn auth_header(&self) -> (header: Option<(String, String)>)
        ensures
            match self@.token {
                Some(token) => header matches Some(h) && h.0@ == "Authorization"@ && h.1@
                    == token,
                None => header is None,
            },
    {
        match &self.token {
            Some(token) => Some(("Authorization".to_string(), token.clone())),
            None => None,
        }
    }

    /// Decode an API response from its HTTP status, its body text, and the
    /// envelope parsed from that body.
    ///
    /// A non-success HTTP status is reported with the body; otherwise a body
    /// that is no envelope is a JSON error, an envelope with a code other than
    /// 200 is an API error classified by its message, and a 200 envelope
    /// yields its `data`.
    pub fn decode_response_value(
        status: u16,
        body: String,
        envelope: core::result::Result<ApiResponse<serde_json::Value>, serde_json::Error>,
    ) -> (r: Result<serde_json::Value, ClientError>)
        ensures
            !http_success(status) ==> (r matches Err(ClientError::HttpStatus { status: s, body: b })
                && s == status && b@ == body@),
            http_success(status) ==> match envelope {
                Err(e) => r == Err::<serde_json::Value, ClientError>(ClientError::Json(e)),
                Ok(env) => if env.code == 200 {
                    r == Ok::<serde_json::Value, ClientError>(env.data)
                } else {
                    r matches Err(ClientError::Api { code, message, kind, data }) && code
                        == status_of_code(env.code) && message@ == env.message@ && kind
                        == classify_message(env.message@) && data == env.data
                },
            },
            r is Ok <==> decoded_value_ok(status, envelope),
            status < 200 || status > 299 ==> (r matches Err(
                ClientError::HttpStatus { status: s, body: b },
            ) && s == status && b@ == body@),
            200 <= status <= 299 ==> !(r matches Err(ClientError::HttpStatus { .. })),
    {
        if !status_is_success(status) {
            return Err(ClientError::HttpStatus { status, body });
        }
        match envelope {
            Err(e) => Err(ClientError::Json(e)),
            Ok(env) => {
                let code = ApiStatusCode::from_code(env.code);
                if !code.is_success() {
                    let kind = InternalErrorKind::from_message(env.message.as_str());
                    Err(ClientError::Api { code, kind, message: env.message, data: env.data })
                } else {
                    Ok(env.data)
                }
            },
        }
    }

    /// Whether an error calls for refreshing the session before one retry.
    pub fn should_refresh_auth(&self, err: &ClientError) -> (r: bool)
        ensures
            r == wants_refresh(self@, *err),
            r <==> self@.authentication is Some && rejects_session(*err),
    {
        if self.authentication.is_none() {
            return false;
        }
        match err {
            ClientError::Api { code, .. } => match code {
                ApiStatusCode::Unauthorized | ApiStatusCode::Forbidden => true,
                _ => false,
            },
            ClientError::HttpStatus { status, .. } => *status == 401 || *status == 403,
            _ => false,
        }
    }

    /// The step the request cycle takes after a decoded response: finish with
    /// it, or, once per request, refresh the session and retry when the server
    /// rejected it and authentication material is configured.
    pub fn request_step(
        &self,
        is_retry: bool,
        decoded: Result<serde_json::Value, ClientError>,
    ) -> (step: RequestStep)
        ensures
            step == request_step_spec(self@, is_retry, decoded),
    {
        match decoded {
            Ok(value) => RequestStep::Finish(Ok(value)),
            Err(err) => {
                if !is_retry && self.should_refresh_auth(&err) {
                    RequestStep::RefreshThenRetry
                } else {
                    RequestStep::Finish(Err(err))
                }
            },
        }
    }

    /// Begin refreshing the session. Under username/password authentication
    /// this is the login request to send, after whose answer the caller
    /// replaces the token; under token authentication the stored token is
    /// re-applied at once; without authentication nothing happens.
    pub fn prepare_refresh(&mut self) -> (login: Option<LoginReq>)
        ensures
            final(self)@.authentication == old(self)@.authentication,
            final(self)@.base_url == old(self)@.base_url,
            final(self)@.api_request_interval == old(self)@.api_request_interval,
            match old(self)@.authentication {
                Some(AuthenticationView::UsernamePassword { username, password, otp_code }) => {
                    &&& login matches Some(req) && req.username@ == username && req.password@
                        == password && opt_text(req.otp_code) == otp_code
                    &&& final(self)@.token == old(self)@.token
                },
                Some(AuthenticationView::Token(token)) => {
                    &&& login is None
                    &&& final(self)@.token == Some(token)
                },
                None => login is None && final(self)@.token == old(self)@.token,
            },
    {
        let action = match &self.authentication {
            Some(Authentication::UsernamePassword { username, password, otp_code }) => Ok(
                LoginReq {
                    username: username.clone(),
                    password: password.clone(),
                    otp_code: clone_opt_string(otp_code),
                },
            ),
            Some(Authentication::Token(token)) => Err(Some(token.clone())),
            None => Err(None),
        };
        match action {
            Ok(req) => Some(req),
            Err(Some(token)) => {
                self.replace_token(Some(token));
                None
            },
            Err(None) => None,
        }
    }

    /// The answer of `/api/ping` from its HTTP status and body: an HTTP error
    /// for a non-success status, otherwise whether the trimmed body is `pong`.
    pub fn ping_outcome(status: u16, body: String) -> (r: Result<bool, ClientError>)
        ensures
            !http_success(status) ==> (r matches Err(ClientError::HttpStatus { status: s, body: b })
                && s == status && b@ == body@),
            http_success(status) ==> (r matches Ok(alive) && alive == (trim_whitespace(body@)
                == "pong"@)),
            status < 200 || status > 299 ==> (r matches Err(
                ClientError::HttpStatus { status: s, body: b },
            ) && s == status && b@ == body@),
            200 <= status <= 299 ==> r is Ok,
    {
        if !status_is_success(status) {
            return Err(ClientError::HttpStatus { status, body });
        }
        let trimmed = trimmed_chars(body.as_str());
        let pong = chars_of("pong");
        Ok(chars_equal(&trimmed, &pong))
    }
}

/// A request that was already retried is never refreshed again: each request
/// logs in again at most once.
pub proof fn lemma_at_most_one_refresh(c: ClientView, decoded: Result<serde_json::Value, ClientError>)
    ensures
        request_step_spec(c, true, decoded) is Finish,
{
}

/// A refresh is only ever asked for when authentication material is
/// configured and the server rejected the session; a successful response is
/// always handed on as it is.
pub proof fn lemma_refresh_only_on_rejection(
    c: ClientView,
    is_retry: bool,
    decoded: Result<serde_json::Value, ClientError>,
)
    ensures
        request_step_spec(c, is_retry, decoded) is RefreshThenRetry ==> {
            &&& c.authentication is Some
            &&& decoded matches Err(err) && is_auth_rejection(err)
            &&& !is_retry
        },
        decoded matches Ok(v) ==> request_step_spec(c, is_retry, decoded) == RequestStep::Finish(
            Ok(v),
        ),
{
}

/// Whether an error is the server rejecting the session, by its concrete
/// shape: an envelope with code 401 or 403, or an HTTP status 401 or 403.
pub open spec fn rejects_session(err: ClientError) -> bool {
    ||| err matches ClientError::Api { code: ApiStatusCode::Unauthorized, .. }
    ||| err matches ClientError::Api { code: ApiStatusCode::Forbidden, .. }
    ||| err matches ClientError::HttpStatus { status: 401, .. }
    ||| err matches ClientError::HttpStatus { status: 403, .. }
}

/// A first attempt whose session is rejected is refreshed and retried exactly
/// when authentication material is configured; every other failure, every
/// failure of a retried request, and every failure without authentication is
/// handed to the caller as it is.
pub proof fn lemma_refresh_exactly_on_rejection(
    c: ClientView,
    is_retry: bool,
    err: ClientError,
)
    ensures
        !is_retry && c.authentication is Some && rejects_session(err) ==> request_step_spec(
            c,
            is_retry,
            Err(err),
        ) is RefreshThenRetry,
        is_retry || c.authentication is None || !rejects_session(err) ==> request_step_spec(
            c,
            is_retry,
            Err(err),
        ) == RequestStep::Finish(Err::<serde_json::Value, ClientError>(err)),
{
}

/// The HTTP statuses that count as success are exactly 200 to 299: every 1xx,
/// 3xx, 4xx and 5xx status is an HTTP error.
pub proof fn lemma_http_success_range(status: u16)
    ensures
        http_success(status) <==> 200 <= status <= 299,
        status >= 300 ==> !http_success(status),
        status < 200 ==> !http_success(status),
{
}

/// Trailing slashes of a site URL do not matter: the text handed to the URL
/// parser ends with exactly one slash, adding a slash changes nothing, and
/// normalizing twice is normalizing once.
pub proof fn lemma_base_url_trailing_slashes(base_url: Seq<char>)
    ensures
        normalized_base_url(base_url).last() == '/',
        normalized_base_url(base_url).len() >= 2 ==> normalized_base_url(base_url)[normalized_base_url(
            base_url,
        ).len() - 2] != '/',
        normalized_base_url(base_url.push('/')) == normalized_base_url(base_url),
        normalized_base_url(normalized_base_url(base_url)) == normalized_base_url(base_url),
        new_client_view(base_url.push('/')) == new_client_view(base_url),
{
    let t = trim_end_char(base_url, '/');
    lemma_trim_end_char(base_url, '/');
    lemma_trim_end_char(t, '/');
    assert(normalized_base_url(base_url) == t.push('/'));
    if t.len() > 0 {
        assert(t.push('/')[t.len() - 1] == t.last());
    }
}

/// An API path that does not start with a slash is resolved as `api/`
/// followed by the whole path, and a path that does is resolved as the same
/// path without that slash.
pub proof fn lemma_api_reference_keeps_path(path: Seq<char>)
    ensures
        path.len() == 0 || path[0] != '/' ==> api_reference(path) == "api/"@ + path,
        path.len() == 0 || path[0] != '/' ==> api_reference(path).len() == 4 + path.len(),
        path.len() == 0 || path[0] != '/' ==> api_reference(path).subrange(4, 4 + path.len() as int)
            == path,
        path.len() > 0 && path[0] == '/' ==> api_reference(path) == api_reference(
            path.drop_first(),
        ),
{
    reveal_strlit("api/");
    if path.len() > 0 && path[0] == '/' {
        assert(seq!['/'] + path.drop_first() =~= path);
        lemma_trim_start_char(path.drop_first(), '/');
    }
    if path.len() == 0 || path[0] != '/' {
        assert(("api/"@ + path).subrange(4, 4 + path.len() as int) =~= path);
    }
}

/// A site URL that does not end with a slash is handed to the URL parser with
/// exactly one slash appended.
pub proof fn lemma_base_url_keeps_text(base_url: Seq<char>)
    ensures
        base_url.len() == 0 || base_url.last() != '/' ==> normalized_base_url(base_url)
            == base_url.push('/'),
{
    assert(base_url + seq!['/'] =~= base_url.push('/'));
}

/// Leading slashes of an API path do not matter: `/fs/list` and `fs/list`
/// resolve to the same URL.
pub proof fn lemma_api_path_leading_slash(path: Seq<char>)
    ensures
        api_reference(seq!['/'] + path) == api_reference(path),
{
    lemma_trim_start_char(path, '/');
}

} // verus!
