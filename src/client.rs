use vstd::prelude::*;
use crate::error::{failure_error, JsonRpcError, RpcFailure};
use crate::identity::{enr_record_of, identity_of, is_enr_error_for, NodeIdentity};
use crate::text::{contains, contains_exec};
use crate::content::RpcRequest;
use crate::transport::PortalApi;

verus! {

/// The banner with one pair of surrounding double quotes taken off, if it
/// has them.
pub open spec fn strip_quotes(s: Seq<char>) -> Seq<char> {
    if s.len() >= 2 && s[0] == '"' && s[s.len() - 1] == '"' {
        s.subrange(1, s.len() - 1)
    } else {
        s
    }
}

/// Best-effort guess, from the client banner alone, that a peer answers the
/// traced lookup methods: its banner names `trin` or `fluffy` (case-sensitive).
/// The protocol has no capability negotiation, so this is no guarantee.
pub open spec fn trace_capable(banner: Seq<char>) -> bool {
    contains(banner, "trin"@) || contains(banner, "fluffy"@)
}

/// What a node-info call answers: the peer's identity record in text form
/// and its node id in hex.
pub struct NodeInfoResponse {
    pub enr: String,
    pub node_id: String,
}

/// A bootstrapped peer: its transport, its client banner, its parsed
/// identity, and whether the banner names a client that can trace lookups.
/// It is read-only once built, and the trace flag is always the one that
/// the banner gives.
pub struct PortalClient {
    api: PortalApi,
    client_info: String,
    enr: NodeIdentity,
    trace_capable: bool,
}

impl PortalApi {
    /// The call that asks a peer for its client banner.
    pub fn client_version_request() -> (r: RpcRequest)
        ensures
            r.method@ == "web3_clientVersion"@,
            r.params@.len() == 0,
    {
        RpcRequest { method: "web3_clientVersion".to_owned(), params: Vec::new() }
    }

    /// The call that asks a peer for its identity record.
    pub fn node_info_request() -> (r: RpcRequest)
        ensures
            r.method@ == "discv5_nodeInfo"@,
            r.params@.len() == 0,
    {
        RpcRequest { method: "discv5_nodeInfo".to_owned(), params: Vec::new() }
    }

    /// Reads the answer to the client-version call: the banner, with
    /// surrounding quotes taken off.
    pub fn get_client_version(response: Result<String, RpcFailure>) -> (r: Result<String, JsonRpcError>)
        ensures
            match response {
                Ok(v) => r matches Ok(b) && b@ == strip_quotes(v@),
                Err(e) => r == Err::<String, JsonRpcError>(failure_error(e)),
            },
    {
        match response {
            Ok(v) => {
                let n = v.unicode_len();
                if n >= 2 && v.get_char(0) == '"' && v.get_char(n - 1) == '"' {
                    Ok(v.as_str().substring_char(1, n - 1).to_owned())
                } else {
                    Ok(v)
                }
            },
            Err(e) => Err(JsonRpcError::from(e)),
        }
    }

    /// Reads the answer to the node-info call and parses the identity
    /// record in it; a record that does not parse gives `InvalidEnr`, which
    /// holds the record's text.
    pub fn get_node_info(response: Result<NodeInfoResponse, RpcFailure>) -> (r: Result<NodeIdentity, JsonRpcError>)
        ensures
            match response {
                Ok(info) => match enr_record_of(info.enr@) {
                    Some(_) => r matches Ok(n) && identity_of(n, info.enr@),
                    None => r matches Err(e) && is_enr_error_for(e, info.enr@),
                },
                Err(e) => r == Err::<NodeIdentity, JsonRpcError>(failure_error(e)),
            },
    {
        match response {
            Ok(info) => NodeIdentity::parse(info.enr.as_str()),
            Err(e) => Err(JsonRpcError::from(e)),
        }
    }
}

impl PortalClient {
    #[verifier::type_invariant]
    spec fn inv(&self) -> bool {
        self.trace_capable == trace_capable(self.client_info@)
    }

    /// The peer's transport.
    pub closed spec fn spec_api(&self) -> PortalApi {
        self.api
    }

    /// The peer's client banner.
    pub closed spec fn spec_client_info(&self) -> Seq<char> {
        self.client_info@
    }

    /// The peer's identity.
    pub closed spec fn spec_enr(&self) -> NodeIdentity {
        self.enr
    }

    /// Bootstraps a peer from its transport and the answers to the
    /// client-version and node-info calls, in that order: a failed call
    /// gives its error; an identity record that does not parse gives
    /// `InvalidEnr` holding the record's text. The banner loses its
    /// surrounding quotes, and the trace capability is fixed here, once,
    /// from it.
    pub fn from(
        api: PortalApi,
        client_version: Result<String, RpcFailure>,
        node_info: Result<NodeInfoResponse, RpcFailure>,
    ) -> (r: Result<PortalClient, JsonRpcError>)
        ensures
            match client_version {
                Err(e) => r == Err::<PortalClient, JsonRpcError>(failure_error(e)),
                Ok(v) => match node_info {
                    Err(e) => r == Err::<PortalClient, JsonRpcError>(failure_error(e)),
                    Ok(info) => match enr_record_of(info.enr@) {
                        None => r matches Err(e) && is_enr_error_for(e, info.enr@),
                        Some(_) => r matches Ok(c) && c.spec_api() == api
                            && c.spec_client_info() == strip_quotes(v@) && identity_of(
                            c.spec_enr(),
                            info.enr@,
                        ),
                    },
                },
            },
    {
        let client_info = match PortalApi::get_client_version(client_version) {
            Ok(b) => b,
            Err(e) => {
                return Err(e);
            },
        };
        let enr = match PortalApi::get_node_info(node_info) {
            Ok(n) => n,
            Err(e) => {
                return Err(e);
            },
        };
        let trace_capable = contains_exec(client_info.as_str(), "trin") || contains_exec(
            client_info.as_str(),
            "fluffy",
        );
        Ok(PortalClient { api, client_info, enr, trace_capable })
    }

    /// The peer's transport.
    pub fn api(&self) -> (r: &PortalApi)
        ensures
            *r == self.spec_api(),
    {
        &self.api
    }

    /// The peer's client banner.
    pub fn client_info(&self) -> (r: &String)
        ensures
            r@ == self.spec_client_info(),
    {
        &self.client_info
    }

    /// The peer's identity.
    pub fn enr(&self) -> (r: &NodeIdentity)
        ensures
            *r == self.spec_enr(),
    {
        &self.enr
    }

    /// Whether the peer's banner names a client that can trace lookups; a
    /// heuristic fixed at bootstrap, not a negotiated capability.
    pub fn supports_trace(&self) -> (r: bool)
        ensures
            r == trace_capable(self.spec_client_info()),
    {
        proof {
            use_type_invariant(self);
        }
        self.trace_capable
    }
}

} // verus!
