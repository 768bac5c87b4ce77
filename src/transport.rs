use vstd::prelude::*;
use crate::error::JsonRpcError;
use crate::text::{has_prefix, has_prefix_exec, has_suffix, has_suffix_exec};

verus! {

/// The per-request timeout, in seconds, of every transport binding.
pub const REQUEST_TIMEOUT_SECS: u64 = 120;

/// The serialized form of the URL that a text parses as, or `None` if it is
/// no URL.
pub uninterp spec fn parsed_url_of(s: Seq<char>) -> Option<Seq<char>>;

/// Relies on `url::Url::parse`, read back through `Url::as_str`: whether a
/// text is a URL, and its serialized form, depend on the text alone.
#[verifier::external_body]
fn parse_url(s: &str) -> (r: Option<String>)
    ensures
        match r {
            Some(u) => parsed_url_of(s@) == Some(u@),
            None => parsed_url_of(s@) is None,
        },
{
    match url::Url::parse(s) {
        Ok(u) => Some(u.as_str().to_owned()),
        Err(_) => None,
    }
}

/// How a peer is reached: over HTTP at a URL, or over a local socket file.
#[derive(Clone, Debug)]
pub enum TransportConfig {
    HTTP(String),
    IPC(String),
}

/// The scheme that selects the HTTP transport.
pub open spec fn http_scheme() -> Seq<char> {
    "http://"@
}

/// The file suffix that marks a local socket path.
pub open spec fn ipc_suffix() -> Seq<char> {
    ".ipc"@
}

/// `r` is the `ClientURL` error for the address `s`.
pub open spec fn is_client_url_error<T>(r: Result<T, JsonRpcError>, s: Seq<char>) -> bool {
    r matches Err(JsonRpcError::ClientURL { url: v }) && v@ == s
}

/// A bound transport: the peer's URL and the fixed per-request timeout.
#[derive(Clone, Debug)]
pub struct PortalApi {
    pub url: String,
    pub request_timeout_secs: u64,
}

impl TransportConfig {
    /// Reads a peer address: `http://` followed by a valid URL selects HTTP,
    /// a path ending in `.ipc` a local socket; anything else is `ClientURL`.
    pub fn from_url(url: &str) -> (r: Result<TransportConfig, JsonRpcError>)
        ensures
            has_prefix(url@, http_scheme()) ==> match parsed_url_of(url@) {
                Some(u) => r matches Ok(TransportConfig::HTTP(v)) && v@ == u,
                None => is_client_url_error(r, url@),
            },
            !has_prefix(url@, http_scheme()) && has_suffix(url@, ipc_suffix()) ==> (r matches Ok(
                TransportConfig::IPC(v),
            ) && v@ == url@),
            !has_prefix(url@, http_scheme()) && !has_suffix(url@, ipc_suffix())
                ==> is_client_url_error(r, url@),
    {
        if has_prefix_exec(url, "http://") {
            match parse_url(url) {
                Some(u) => Ok(TransportConfig::HTTP(u)),
                None => Err(JsonRpcError::ClientURL { url: url.to_owned() }),
            }
        } else if has_suffix_exec(url, ".ipc") {
            Ok(TransportConfig::IPC(url.to_owned()))
        } else {
            Err(JsonRpcError::ClientURL { url: url.to_owned() })
        }
    }
}

impl PortalApi {
    /// Binds a peer address to a transport with the fixed timeout. Only HTTP
    /// is available: a socket path gives `UnsupportedTransport`, and an
    /// address that `TransportConfig::from_url` refuses gives its error.
    pub fn new(client_url: String) -> (r: Result<PortalApi, JsonRpcError>)
        ensures
            has_prefix(client_url@, http_scheme()) ==> match parsed_url_of(client_url@) {
                Some(u) => r matches Ok(api) && api.url@ == u && api.request_timeout_secs
                    == REQUEST_TIMEOUT_SECS,
                None => is_client_url_error(r, client_url@),
            },
            !has_prefix(client_url@, http_scheme()) && has_suffix(client_url@, ipc_suffix()) ==> (
            r matches Err(JsonRpcError::UnsupportedTransport { url: v }) && v@ == client_url@),
            !has_prefix(client_url@, http_scheme()) && !has_suffix(client_url@, ipc_suffix())
                ==> is_client_url_error(r, client_url@),
    {
        match TransportConfig::from_url(client_url.as_str()) {
            Ok(TransportConfig::HTTP(url)) => Ok(PortalApi { url, request_timeout_secs: REQUEST_TIMEOUT_SECS }),
            Ok(TransportConfig::IPC(_)) => Err(JsonRpcError::UnsupportedTransport { url: client_url }),
            Err(e) => Err(e),
        }
    }
}

} // verus!
