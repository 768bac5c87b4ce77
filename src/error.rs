use vstd::prelude::*;

verus! {

/// The JSON-RPC error code with which a peer says that a lookup completed
/// without finding the content.
pub const CONTENT_NOT_FOUND_ERROR_CODE: i32 = -39001;

/// Every way a call into a Portal peer can fail, plus the protocol's own
/// "content not found" outcome.
#[derive(Debug)]
pub enum JsonRpcError {
    /// The transport failed, or the peer answered with an error other than
    /// the "content not found" sentinel; holds the failure's text.
    HttpClient(String),
    /// An identity record that does not parse.
    InvalidEnr { error: String, enr_string: String },
    /// A hex identifier that does not decode to 32 bytes.
    InvalidHash { source: alloy_primitives::hex::FromHexError, input: String },
    /// A hex payload in a response that does not decode.
    InvalidHex { source: alloy_primitives::hex::FromHexError, input: String },
    /// A peer address with a scheme that is not recognised, or that does not
    /// parse as a URL.
    ClientURL { url: String },
    /// A peer address of a recognised kind that has no transport here.
    UnsupportedTransport { url: String },
    /// The peer answered with the "content not found" sentinel.
    ContentNotFound { trace: Option<String> },
}

/// What a failed call reported: the JSON-RPC error code of a call error that
/// the peer answered with (`None` for every other failure), the lookup trace
/// that the error's auxiliary data carries, serialized as JSON text (the
/// `trace` member of the data where the data is an object that has one, else
/// the whole data; `None` when the error has no data), and the failure's
/// description.
#[derive(Clone)]
pub struct RpcFailure {
    pub call_code: Option<i32>,
    pub trace: Option<String>,
    pub text: String,
}

/// The three outcomes of one call: a value, the protocol-defined absence
/// (with the peer's trace, if it sent one), or a failure.
pub enum RpcOutcome<T> {
    Found(T),
    Absent { trace: Option<String> },
    Failed(JsonRpcError),
}

/// Whether a failure is the peer's "content not found" answer.
pub open spec fn is_not_found(e: RpcFailure) -> bool {
    e.call_code == Some(CONTENT_NOT_FOUND_ERROR_CODE)
}

/// The error that a failure stands for: the sentinel code gives
/// `ContentNotFound` with the error's trace, anything else
/// `HttpClient` with the failure's text.
pub open spec fn failure_error(e: RpcFailure) -> JsonRpcError {
    if is_not_found(e) {
        JsonRpcError::ContentNotFound { trace: e.trace }
    } else {
        JsonRpcError::HttpClient(e.text)
    }
}

impl JsonRpcError {
    /// Reads a call failure: the sentinel code becomes `ContentNotFound` with
    /// the error's trace, anything else an `HttpClient` error.
    pub fn from(e: RpcFailure) -> (r: JsonRpcError)
        ensures
            r == failure_error(e),
    {
        match e.call_code {
            Some(code) if code == CONTENT_NOT_FOUND_ERROR_CODE => {
                JsonRpcError::ContentNotFound { trace: e.trace }
            },
            _ => JsonRpcError::HttpClient(e.text),
        }
    }
}

/// Sorts the result of one call into its three outcomes, so that no caller
/// sees the sentinel code as an ordinary failure.
pub fn classify<T>(r: Result<T, RpcFailure>) -> (o: RpcOutcome<T>)
    ensures
        match r {
            Ok(v) => o == RpcOutcome::Found(v),
            Err(e) => if is_not_found(e) {
                o == (RpcOutcome::<T>::Absent { trace: e.trace })
            } else {
                o == RpcOutcome::<T>::Failed(JsonRpcError::HttpClient(e.text))
            },
        },
{
    match r {
        Ok(v) => RpcOutcome::Found(v),
        Err(e) => match JsonRpcError::from(e) {
            JsonRpcError::ContentNotFound { trace } => RpcOutcome::Absent { trace },
            other => RpcOutcome::Failed(other),
        },
    }
}

} // verus!
