//! Configuration of the API client and the decisions around its requests.

use crate::error::LanefulError;
use crate::error::Result;
use crate::models::ApiErrorResponse;
use vstd::prelude::*;
use vstd::string::StrSliceExecFns;
use vstd::string::StringExecFns;

verus! {

/// Path of the send endpoint, below the base URL.
pub const SEND_PATH: &'static str = "/v1/email/send";

/// `s` with every trailing `/` removed.
pub open spec fn trim_trailing_slashes(s: Seq<char>) -> Seq<char>
    decreases s.len(),
{
    if s.len() > 0 && s.last() == '/' {
        trim_trailing_slashes(s.drop_last())
    } else {
        s
    }
}

/// `s` begins with an `http://` or `https://` scheme.
pub open spec fn has_http_scheme(s: Seq<char>) -> bool {
    "https://"@.is_prefix_of(s) || "http://"@.is_prefix_of(s)
}

/// `e` is a configuration error with message `m`.
pub open spec fn is_config_error(e: LanefulError, m: Seq<char>) -> bool {
    e is ConfigError && e->ConfigError_0@ == m
}

/// `s` with its trailing slashes removed.
fn trim_slashes(s: &str) -> (r: String)
    ensures
        r@ == trim_trailing_slashes(s@),
{
    let len = s.unicode_len();
    let mut n: usize = len;
    assert(s@.subrange(0, n as int) =~= s@);
    while n > 0 && s.get_char(n - 1) == '/'
        invariant
            n <= len,
            len == s@.len(),
            trim_trailing_slashes(s@) == trim_trailing_slashes(s@.subrange(0, n as int)),
        decreases n,
    {
        proof {
            assert(s@.subrange(0, n as int).drop_last() =~= s@.subrange(0, n - 1));
        }
        n = n - 1;
    }
    s.substring_char(0, n).to_owned()
}

/// Whether `s` begins with `prefix`.
fn starts_with(s: &str, prefix: &str) -> (r: bool)
    ensures
        r == prefix@.is_prefix_of(s@),
{
    let n = prefix.unicode_len();
    if n > s.unicode_len() {
        return false;
    }
    let mut i: usize = 0;
    while i < n
        invariant
            n == prefix@.len(),
            n <= s@.len(),
            i <= n,
            forall|j: int| 0 <= j < i ==> prefix@[j] == s@[j],
        decreases n - i,
    {
        if prefix.get_char(i) != s.get_char(i) {
            return false;
        }
        i = i + 1;
    }
    true
}

/// Client configuration for the email API: where to send and how to
/// authenticate.
#[derive(Debug)]
pub struct LanefulClient {
    base_url: String,
    api_key: String,
}

impl LanefulClient {
    #[verifier::type_invariant]
    spec fn well_formed(&self) -> bool {
        &&& self.base_url@.len() > 0
        &&& self.api_key@.len() > 0
        &&& trim_trailing_slashes(self.base_url@) == self.base_url@
        &&& has_http_scheme(self.base_url@)
    }

    /// The base URL, without trailing slashes.
    pub closed spec fn spec_base_url(&self) -> Seq<char> {
        self.base_url@
    }

    /// The API key.
    pub closed spec fn spec_api_key(&self) -> Seq<char> {
        self.api_key@
    }

    /// Create a client for a fully qualified base URL (`http://` or `https://`).
    pub fn new(endpoint: &str, api_key: &str) -> (r: Result<Self>)
        ensures
            endpoint@.len() == 0 ==> r is Err && is_config_error(
                r->Err_0,
                "endpoint cannot be empty"@,
            ),
            endpoint@.len() > 0 && !has_http_scheme(endpoint@) ==> r is Err && is_config_error(
                r->Err_0,
                "endpoint must be a fully qualified URL (e.g., https://custom-endpoint.api.laneful.com)"@,
            ),
            has_http_scheme(endpoint@) ==> LanefulClient::configured(endpoint@, api_key@, r),
    {
        proof {
            reveal_strlit("https://");
            reveal_strlit("http://");
        }
        if endpoint.is_empty() {
            return Err(LanefulError::ConfigError("endpoint cannot be empty".to_owned()));
        }
        if !(starts_with(endpoint, "https://") || starts_with(endpoint, "http://")) {
            return Err(
                LanefulError::ConfigError(
                    "endpoint must be a fully qualified URL (e.g., https://custom-endpoint.api.laneful.com)".to_owned(),
                ),
            );
        }
        LanefulClient::with_base_url(endpoint, api_key)
    }

    /// `r` is what configuring with `base_url` and `api_key` gives.
    pub open spec fn configured(base_url: Seq<char>, api_key: Seq<char>, r: Result<Self>) -> bool {
        if trim_trailing_slashes(base_url).len() == 0 {
            r is Err && is_config_error(r->Err_0, "base_url cannot be empty"@)
        } else if !has_http_scheme(trim_trailing_slashes(base_url)) {
            r is Err && is_config_error(
                r->Err_0,
                "base_url must be a fully qualified URL (e.g., https://custom-endpoint.api.laneful.com)"@,
            )
        } else if api_key.len() == 0 {
            r is Err && is_config_error(r->Err_0, "api_key cannot be empty"@)
        } else {
            &&& r is Ok
            &&& r->Ok_0.spec_base_url() == trim_trailing_slashes(base_url)
            &&& r->Ok_0.spec_api_key() == api_key
        }
    }

    /// Create a client with a custom base URL (`http://` or `https://`);
    /// trailing slashes are dropped.
    pub fn with_base_url(base_url: &str, api_key: &str) -> (r: Result<Self>)
        ensures
            LanefulClient::configured(base_url@, api_key@, r),
    {
        let trimmed = trim_slashes(base_url);
        if trimmed.as_str().is_empty() {
            return Err(LanefulError::ConfigError("base_url cannot be empty".to_owned()));
        }
        if !(starts_with(trimmed.as_str(), "https://") || starts_with(trimmed.as_str(), "http://")) {
            return Err(
                LanefulError::ConfigError(
                    "base_url must be a fully qualified URL (e.g., https://custom-endpoint.api.laneful.com)".to_owned(),
                ),
            );
        }
        if api_key.is_empty() {
            return Err(LanefulError::ConfigError("api_key cannot be empty".to_owned()));
        }
        proof {
            lemma_trim_idempotent(base_url@);
        }
        Ok(LanefulClient { base_url: trimmed, api_key: api_key.to_owned() })
    }

    /// The base URL, without trailing slashes.
    pub fn base_url(&self) -> (r: &str)
        ensures
            r@ == self.spec_base_url(),
    {
        self.base_url.as_str()
    }

    /// The API key.
    pub fn api_key(&self) -> (r: &str)
        ensures
            r@ == self.spec_api_key(),
    {
        self.api_key.as_str()
    }

    /// The URL of the send endpoint.
    pub fn api_url(&self) -> (r: String)
        ensures
            r@ == self.spec_base_url() + SEND_PATH@,
    {
        self.base_url.clone().concat(SEND_PATH)
    }

    /// The value of the `Authorization` header: a bearer token.
    pub fn authorization(&self) -> (r: String)
        ensures
            r@ == "Bearer "@ + self.spec_api_key(),
    {
        String::from_str("Bearer ").concat(self.api_key.as_str())
    }

    /// The error for a response whose status is not a success: the message of
    /// the error body when it could be read, else one naming the status.
    pub fn error_from_response(status: &str, body: Option<ApiErrorResponse>) -> (r: LanefulError)
        ensures
            r is ApiError,
            r->ApiError_0@ == (match body {
                Some(b) => b.error@,
                None => "HTTP error: "@ + status@,
            }),
    {
        match body {
            Some(b) => LanefulError::ApiError(b.error),
            None => LanefulError::ApiError(String::from_str("HTTP error: ").concat(status)),
        }
    }
}

impl Clone for LanefulClient {
    fn clone(&self) -> (r: Self)
        ensures
            r.spec_base_url() == self.spec_base_url(),
            r.spec_api_key() == self.spec_api_key(),
    {
        proof {
            use_type_invariant(self);
        }
        LanefulClient { base_url: self.base_url.clone(), api_key: self.api_key.clone() }
    }
}

/// Whether an HTTP status code reports success (a 2xx code).
pub fn is_success_status(status: u16) -> (r: bool)
    ensures
        r == (200 <= status && status <= 299),
{
    200 <= status && status <= 299
}

/// Removing trailing slashes twice removes no more than once.
pub proof fn lemma_trim_idempotent(s: Seq<char>)
    ensures
        trim_trailing_slashes(trim_trailing_slashes(s)) == trim_trailing_slashes(s),
    decreases s.len(),
{
    if s.len() > 0 && s.last() == '/' {
        lemma_trim_idempotent(s.drop_last());
    }
}

} // verus!
