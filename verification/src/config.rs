//! Client configuration: base URL and the credential header.
//!
//! The three constructors of [`ClientExt`] mirror the ways a client is set
//! up: against the default API with a key, against the default API without
//! one, and against a custom Forem instance with a key. The credential is
//! validated here, so an invalid key is refused before any client exists.

use vstd::prelude::*;

use reqwest::Client as HttpTransport;
use reqwest::Error as HttpTransportError;

verus! {

/// The default base URL for the dev.to API.
pub const DEVTO_API_URL: &'static str = "https://dev.to/api";

/// The HTTP transport type this client rides on.
#[verifier::external_type_specification]
#[verifier::external_body]
pub struct ExReqwestClient(HttpTransport);

/// The transport's error type, carried through construction failures.
#[verifier::external_type_specification]
#[verifier::external_body]
pub struct ExReqwestError(HttpTransportError);

/// Errors that can occur when creating a dev.to client.
#[derive(Debug)]
pub enum DevtoClientError {
    /// Failed to build the HTTP client.
    HttpClient(reqwest::Error),
    /// Invalid base URL or credential.
    InvalidUrl(String),
}

/// A character is acceptable in an HTTP header value: horizontal tab, or
/// anything from the space character on except delete.
pub open spec fn spec_header_value_char(c: char) -> bool {
    c == '\t' || (c >= ' ' && c != '\u{7f}')
}

/// Every character of `s` is acceptable in an HTTP header value. A string
/// passes exactly when the transport accepts it as a header value.
pub open spec fn spec_valid_header_value(s: Seq<char>) -> bool {
    forall|i: int| 0 <= i < s.len() ==> spec_header_value_char(#[trigger] s[i])
}

/// Checks a credential for acceptability as a header value.
pub fn is_valid_header_value(s: &str) -> (r: bool)
    ensures
        r == spec_valid_header_value(s@),
{
    let n = s.unicode_len();
    let mut i: usize = 0;
    while i < n
        invariant
            n == s@.len(),
            i <= n,
            forall|j: int| 0 <= j < i ==> spec_header_value_char(#[trigger] s@[j]),
        decreases n - i,
    {
        let c = s.get_char(i);
        if !(c == '\t' || (c >= ' ' && c != '\u{7f}')) {
            return false;
        }
        i += 1;
    }
    true
}

/// A client for the article endpoints: the base URL requests are sent to,
/// the credential attached to them, and the transport that carries them.
#[derive(Debug)]
pub struct Client {
    pub base_url: String,
    pub api_key: Option<String>,
    pub http: reqwest::Client,
}

/// The configuration a client was built with.
#[verifier::ext_equal]
pub struct ClientV {
    pub base_url: Seq<char>,
    pub api_key: Option<Seq<char>>,
}

impl View for Client {
    type V = ClientV;

    open spec fn view(&self) -> ClientV {
        ClientV {
            base_url: self.base_url@,
            api_key: crate::articles::opt_str_view(self.api_key),
        }
    }
}

/// Relies on reqwest's `ClientBuilder` (`builder`, `user_agent`,
/// `default_headers`, `build`) and on `HeaderValue::from_str`, which
/// accepts exactly the strings `spec_valid_header_value` admits; building
/// the transport performs no I/O. When a key is given, it is installed as
/// the default `api-key` header of every request the transport sends.
#[verifier::external_body]
fn build_http_client(api_key: Option<&str>) -> (r: Result<reqwest::Client, reqwest::Error>)
    requires
        api_key matches Some(k) ==> spec_valid_header_value(k@),
{
    let mut headers = reqwest::header::HeaderMap::new();
    if let Some(k) = api_key {
        if let Ok(v) = reqwest::header::HeaderValue::from_str(k) {
            headers.insert("api-key", v);
        }
    }
    reqwest::Client::builder()
        .user_agent("devto-api-rust/0.1.0")
        .default_headers(headers)
        .build()
}

/// Extension trait providing convenient constructors for the dev.to API
/// client.
pub trait ClientExt: Sized {
    /// Create a new client configured for the dev.to API with an API key.
    fn devto(api_key: &str) -> (r: Result<Client, DevtoClientError>)
        ensures
            r matches Ok(c) ==> c@ == (ClientV {
                base_url: DEVTO_API_URL@,
                api_key: Some(api_key@),
            }),
            !spec_valid_header_value(api_key@) <==> r matches Err(DevtoClientError::InvalidUrl(_)),
            r matches Err(DevtoClientError::InvalidUrl(m)) ==> m@ == "Invalid API key format"@,
    ;

    /// Create a new client configured for the dev.to API without
    /// authentication. Only public endpoints are then in reach.
    fn devto_public() -> (r: Result<Client, DevtoClientError>)
        ensures
            r matches Ok(c) ==> c@ == (ClientV {
                base_url: DEVTO_API_URL@,
                api_key: None::<Seq<char>>,
            }),
            r matches Err(e) ==> e is HttpClient,
    ;

    /// Create a new client for a custom Forem instance with an API key.
    fn forem(base_url: &str, api_key: &str) -> (r: Result<Client, DevtoClientError>)
        ensures
            r matches Ok(c) ==> c@ == (ClientV {
                base_url: base_url@,
                api_key: Some(api_key@),
            }),
            !spec_valid_header_value(api_key@) <==> r matches Err(DevtoClientError::InvalidUrl(_)),
            r matches Err(DevtoClientError::InvalidUrl(m)) ==> m@ == "Invalid API key format"@,
    ;
}

impl ClientExt for Client {
    fn devto(api_key: &str) -> (r: Result<Client, DevtoClientError>) {
        Self::forem(DEVTO_API_URL, api_key)
    }

    fn devto_public() -> (r: Result<Client, DevtoClientError>) {
        match build_http_client(None) {
            Ok(http) => Ok(Client { base_url: DEVTO_API_URL.to_owned(), api_key: None, http }),
            Err(e) => Err(DevtoClientError::HttpClient(e)),
        }
    }

    fn forem(base_url: &str, api_key: &str) -> (r: Result<Client, DevtoClientError>) {
        if !is_valid_header_value(api_key) {
            return Err(DevtoClientError::InvalidUrl("Invalid API key format".to_owned()));
        }
        match build_http_client(Some(api_key)) {
            Ok(http) => Ok(Client {
                base_url: base_url.to_owned(),
                api_key: Some(api_key.to_owned()),
                http,
            }),
            Err(e) => Err(DevtoClientError::HttpClient(e)),
        }
    }
}

impl Client {
    /// A client for a caller-chosen base URL, without authentication, on a
    /// fresh transport. Construction failure surfaces as an error.
    pub fn new(base_url: &str) -> (r: Result<Client, DevtoClientError>)
        ensures
            r matches Ok(c) ==> c@ == (ClientV {
                base_url: base_url@,
                api_key: None::<Seq<char>>,
            }),
            r matches Err(e) ==> e is HttpClient,
    {
        match build_http_client(None) {
            Ok(http) => Ok(Client { base_url: base_url.to_owned(), api_key: None, http }),
            Err(e) => Err(DevtoClientError::HttpClient(e)),
        }
    }

    /// A client over a transport the caller already built. No credential
    /// is recorded: whatever the given transport attaches is its own.
    pub fn new_with_client(base_url: &str, http: reqwest::Client) -> (r: Client)
        ensures
            r@ == (ClientV { base_url: base_url@, api_key: None::<Seq<char>> }),
    {
        Client { base_url: base_url.to_owned(), api_key: None, http }
    }

    /// The base URL this client targets.
    pub fn base_url(&self) -> (r: &str)
        ensures
            r@ == self@.base_url,
    {
        self.base_url.as_str()
    }

    /// The credential this client was configured with, if any.
    pub fn api_key(&self) -> (r: Option<&str>)
        ensures
            crate::requests::opt_ref_str_view(r) == self@.api_key,
    {
        match &self.api_key {
            Some(k) => Some(k.as_str()),
            None => None,
        }
    }

    /// The transport this client rides on, for the caller that sends the
    /// requests.
    pub fn http_client(&self) -> &reqwest::Client {
        &self.http
    }
}

} // verus!
