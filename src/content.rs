use vstd::prelude::*;
use crate::error::{failure_error, is_not_found, JsonRpcError, RpcFailure, RpcOutcome, classify};
use crate::hex_codec::{
    decode_hex, encode_content_key, hex_decode, hex_of, lemma_hex_round_trip, lemma_unprefixed_round_trip,
    prefixed_hex_of,
};
use crate::transport::PortalApi;

verus! {

/// The three sub-protocols of the Portal network.
#[derive(Clone, Copy, Debug, PartialEq, Eq)]
pub enum SubProtocol {
    History,
    State,
    Beacon,
}

/// The recursive content lookup method of a sub-protocol.
pub open spec fn find_content_method_of(p: SubProtocol) -> Seq<char> {
    match p {
        SubProtocol::History => "portal_historyRecursiveFindContent"@,
        SubProtocol::State => "portal_stateRecursiveFindContent"@,
        SubProtocol::Beacon => "portal_beaconRecursiveFindContent"@,
    }
}

/// The traced recursive content lookup method of a sub-protocol.
pub open spec fn trace_find_content_method_of(p: SubProtocol) -> Seq<char> {
    match p {
        SubProtocol::History => "portal_historyTraceRecursiveFindContent"@,
        SubProtocol::State => "portal_stateTraceRecursiveFindContent"@,
        SubProtocol::Beacon => "portal_beaconTraceRecursiveFindContent"@,
    }
}

impl SubProtocol {
    /// The name of this sub-protocol's recursive content lookup method.
    pub fn find_content_method(&self) -> (r: &'static str)
        ensures
            r@ == find_content_method_of(*self),
    {
        match self {
            SubProtocol::History => "portal_historyRecursiveFindContent",
            SubProtocol::State => "portal_stateRecursiveFindContent",
            SubProtocol::Beacon => "portal_beaconRecursiveFindContent",
        }
    }

    /// The name of this sub-protocol's traced recursive content lookup method.
    pub fn trace_find_content_method(&self) -> (r: &'static str)
        ensures
            r@ == trace_find_content_method_of(*self),
    {
        match self {
            SubProtocol::History => "portal_historyTraceRecursiveFindContent",
            SubProtocol::State => "portal_stateTraceRecursiveFindContent",
            SubProtocol::Beacon => "portal_beaconTraceRecursiveFindContent",
        }
    }
}

/// A piece of content to look up: its sub-protocol and its raw key.
pub struct ContentDescriptor {
    pub protocol_id: SubProtocol,
    pub content_key: Vec<u8>,
}

/// Content as a peer returned it.
pub struct Content {
    pub raw: Vec<u8>,
}

/// One JSON-RPC call to make: the method and its positional parameters,
/// each already in its wire text form.
pub struct RpcRequest {
    pub method: String,
    pub params: Vec<String>,
}

/// What a plain lookup answers: the content as hex, or `None` where the
/// answer has another shape (the peer sent no content).
pub struct ContentResponse {
    pub content: Option<String>,
}

/// What a traced lookup answers: the content as hex, and the lookup's
/// trace serialized as JSON text.
pub struct TraceContentResponse {
    pub content: String,
    pub trace: String,
}

/// `r` is the `InvalidHex` error for the payload text `h`.
pub open spec fn is_payload_error<T>(r: Result<T, JsonRpcError>, h: Seq<char>) -> bool {
    r matches Err(JsonRpcError::InvalidHex { input, .. }) && input@ == h
}

/// Decodes a hex payload (prefixed or not); one that does not decode gives
/// `InvalidHex`, which holds the text.
fn decode_payload(h: String) -> (r: Result<Content, JsonRpcError>)
    ensures
        match hex_decode(h@) {
            Some(b) => r matches Ok(c) && c.raw@ == b,
            None => is_payload_error(r, h@),
        },
{
    match decode_hex(h.as_str()) {
        Ok(raw) => Ok(Content { raw }),
        Err(source) => Err(JsonRpcError::InvalidHex { source, input: h }),
    }
}

/// The key parameter of a lookup call loses nothing: it begins with `0x`,
/// and both it and the digits after the prefix decode to the content key.
pub proof fn lemma_request_key_round_trip(content: ContentDescriptor, r: RpcRequest)
    requires
        r.params@.len() == 1,
        r.params@[0]@ == prefixed_hex_of(content.content_key@),
    ensures
        r.params@[0]@.len() >= 2,
        r.params@[0]@.subrange(0, 2) == seq!['0', 'x'],
        hex_decode(r.params@[0]@.subrange(2, r.params@[0]@.len() as int)) == Some(content.content_key@),
        hex_decode(r.params@[0]@) == Some(content.content_key@),
{
    let p = r.params@[0]@;
    let k = content.content_key@;
    assert(p.subrange(0, 2) =~= seq!['0', 'x']);
    assert(p.subrange(2, p.len() as int) =~= hex_of(k));
    lemma_unprefixed_round_trip(k);
    lemma_hex_round_trip(k);
}

impl PortalApi {
    /// The lookup call for a piece of content: the plain or traced method of
    /// its sub-protocol, with its key as prefixed hex for sole parameter. The
    /// key is sent as given: whether it is a valid key of its sub-protocol
    /// is left to the peer.
    pub fn content_request(content: &ContentDescriptor, traced: bool) -> (r: RpcRequest)
        ensures
            r.method@ == if traced {
                trace_find_content_method_of(content.protocol_id)
            } else {
                find_content_method_of(content.protocol_id)
            },
            r.params@.len() == 1,
            r.params@[0]@ == prefixed_hex_of(content.content_key@),
    {
        let method = if traced {
            content.protocol_id.trace_find_content_method()
        } else {
            content.protocol_id.find_content_method()
        };
        let mut params: Vec<String> = Vec::new();
        params.push(encode_content_key(&content.content_key));
        RpcRequest { method: method.to_owned(), params }
    }

    /// Reads the answer to a plain lookup. The sentinel error and an answer
    /// without content both give `Ok(None)`; other failures their error;
    /// content is decoded from hex.
    pub fn get_content(response: Result<ContentResponse, RpcFailure>) -> (r: Result<Option<Content>, JsonRpcError>)
        ensures
            match response {
                Err(e) => if is_not_found(e) {
                    r matches Ok(None)
                } else {
                    r == Err::<Option<Content>, JsonRpcError>(failure_error(e))
                },
                Ok(resp) => match resp.content {
                    None => r matches Ok(None),
                    Some(h) => match hex_decode(h@) {
                        Some(b) => r matches Ok(Some(c)) && c.raw@ == b,
                        None => is_payload_error(r, h@),
                    },
                },
            },
    {
        match classify(response) {
            RpcOutcome::Found(resp) => match resp.content {
                None => Ok(None),
                Some(h) => match decode_payload(h) {
                    Ok(c) => Ok(Some(c)),
                    Err(e) => Err(e),
                },
            },
            RpcOutcome::Absent { .. } => Ok(None),
            RpcOutcome::Failed(e) => Err(e),
        }
    }

    /// Reads the answer to a traced lookup. The sentinel error gives no
    /// content, with the peer's trace if the error carried one and `None` if
    /// not; other failures their error; content is decoded from hex and
    /// paired with its trace.
    pub fn get_content_with_trace(response: Result<TraceContentResponse, RpcFailure>) -> (r: Result<
        (Option<Content>, Option<String>),
        JsonRpcError,
    >)
        ensures
            match response {
                Err(e) => if is_not_found(e) {
                    r matches Ok((None, t)) && t == e.trace
                } else {
                    r == Err::<(Option<Content>, Option<String>), JsonRpcError>(failure_error(e))
                },
                Ok(resp) => match hex_decode(resp.content@) {
                    Some(b) => r matches Ok((Some(c), Some(t))) && c.raw@ == b && t == resp.trace,
                    None => is_payload_error(r, resp.content@),
                },
            },
    {
        match classify(response) {
            RpcOutcome::Found(resp) => match decode_payload(resp.content) {
                Ok(c) => Ok((Some(c), Some(resp.trace))),
                Err(e) => Err(e),
            },
            RpcOutcome::Absent { trace } => Ok((None, trace)),
            RpcOutcome::Failed(e) => Err(e),
        }
    }
}

} // verus!
