use vstd::prelude::*;
use crate::error::{failure_error, JsonRpcError, RpcFailure};
use crate::hex_codec::hex_decode;
use crate::identity::{enr_record_of, identity_of, NodeIdentity};
use crate::node_id::{lemma_distance_symmetric, log_distance_of, xor_seq, NodeId};
use crate::content::RpcRequest;
use crate::transport::PortalApi;

verus! {

/// One entry of a routing-table answer, as text: the remote node id in hex,
/// its identity record, and its status.
pub struct RawRoutingEntry {
    pub node_id: String,
    pub enr: String,
    pub status: String,
}

/// What a routing-table call answers: the local node id in hex and the
/// entries in the peer's order.
pub struct RoutingTableResponse {
    pub local_node_id: String,
    pub buckets: Vec<RawRoutingEntry>,
}

/// One analysed entry: the parsed remote id and identity, the status, and
/// the distance and log-distance from the local id.
pub struct RoutingEntry {
    pub node_id: NodeId,
    pub enr: NodeIdentity,
    pub status: String,
    pub distance: NodeId,
    pub log_distance: u16,
}

/// A routing table: the local id and every entry, in the peer's order.
pub struct RoutingTableInfo {
    pub local_node_id: NodeId,
    pub entries: Vec<RoutingEntry>,
}

/// The 32 bytes that a hex node id spells, or `None` for any other text.
pub open spec fn id_of(s: Seq<char>) -> Option<Seq<u8>> {
    match hex_decode(s) {
        Some(b) => if b.len() == 32 {
            Some(b)
        } else {
            None
        },
        None => None,
    }
}

/// Both the remote id and the identity record of an entry parse.
pub open spec fn entry_parses(e: RawRoutingEntry) -> bool {
    id_of(e.node_id@) is Some && enr_record_of(e.enr@) is Some
}

/// `out` is the analysis of `raw` relative to the local id `local`.
pub open spec fn entry_of(out: RoutingEntry, raw: RawRoutingEntry, local: Seq<u8>) -> bool {
    &&& id_of(raw.node_id@) == Some(out.node_id.raw@)
    &&& identity_of(out.enr, raw.enr@)
    &&& out.status@ == raw.status@
    &&& out.distance.raw@ == xor_seq(local, out.node_id.raw@)
    &&& out.log_distance == log_distance_of(out.distance.raw@)
}

/// Every id and record of the answer parses.
pub open spec fn table_parses(t: RoutingTableResponse) -> bool {
    &&& id_of(t.local_node_id@) is Some
    &&& forall|i: int| 0 <= i < t.buckets@.len() ==> entry_parses(#[trigger] t.buckets@[i])
}

/// `e` reports the first text of the answer that does not parse, in the
/// order in which they are read: the local id, then each entry's id and
/// record in turn.
pub open spec fn table_error(e: JsonRpcError, t: RoutingTableResponse) -> bool {
    if id_of(t.local_node_id@) is None {
        e matches JsonRpcError::InvalidHash { input, .. } && input@ == t.local_node_id@
    } else {
        exists|k: int|
            0 <= k < t.buckets@.len() && (forall|j: int|
                0 <= j < k ==> entry_parses(#[trigger] t.buckets@[j])) && !entry_parses(
                t.buckets@[k],
            ) && entry_error(e, #[trigger] t.buckets@[k])
    }
}

/// `e` reports the first text of the entry `raw` that does not parse: its
/// id, else its record.
pub open spec fn entry_error(e: JsonRpcError, raw: RawRoutingEntry) -> bool {
    if id_of(raw.node_id@) is None {
        e matches JsonRpcError::InvalidHash { input, .. } && input@ == raw.node_id@
    } else {
        e matches JsonRpcError::InvalidEnr { enr_string, .. } && enr_string@ == raw.enr@
    }
}

/// `info` is the analysis of the answer `t`.
pub open spec fn table_of(info: RoutingTableInfo, t: RoutingTableResponse) -> bool {
    &&& id_of(t.local_node_id@) == Some(info.local_node_id.raw@)
    &&& info.entries@.len() == t.buckets@.len()
    &&& forall|i: int|
        0 <= i < t.buckets@.len() ==> entry_of(
            #[trigger] info.entries@[i],
            t.buckets@[i],
            info.local_node_id.raw@,
        )
}

/// Analyses one entry relative to the local id.
fn analyse_entry(local: &NodeId, raw: &RawRoutingEntry) -> (r: Result<RoutingEntry, JsonRpcError>)
    ensures
        match r {
            Ok(out) => entry_parses(*raw) && entry_of(out, *raw, local.raw@),
            Err(e) => !entry_parses(*raw) && entry_error(e, *raw),
        },
{
    let node_id = match NodeId::from_hex(raw.node_id.as_str()) {
        Ok(id) => id,
        Err(e) => {
            return Err(e);
        },
    };
    let enr = match NodeIdentity::parse(raw.enr.as_str()) {
        Ok(n) => n,
        Err(e) => {
            return Err(e);
        },
    };
    let distance = local.distance(&node_id);
    let log_distance = distance.log_distance();
    Ok(RoutingEntry { node_id, enr, status: raw.status.clone(), distance, log_distance })
}

/// An entry whose remote id is the local id itself lies at distance zero
/// and log-distance zero.
pub proof fn lemma_self_entry(out: RoutingEntry, raw: RawRoutingEntry, local: NodeId)
    requires
        entry_of(out, raw, local.raw@),
        out.node_id.raw@ == local.raw@,
    ensures
        out.distance.raw@ == Seq::new(32, |i: int| 0u8),
        out.log_distance == 0,
{
    lemma_distance_symmetric(local, local);
}

impl PortalApi {
    /// The call that asks a peer for its routing table.
    pub fn routing_table_info_request() -> (r: RpcRequest)
        ensures
            r.method@ == "discv5_routingTableInfo"@,
            r.params@.len() == 0,
    {
        RpcRequest { method: "discv5_routingTableInfo".to_owned(), params: Vec::new() }
    }

    /// Reads the answer to the routing-table call: parses the local id and
    /// every entry, with each entry's distance and log-distance from the
    /// local id. One entry that does not parse fails the whole call.
    pub fn get_routing_table_info(response: Result<RoutingTableResponse, RpcFailure>) -> (r: Result<
        RoutingTableInfo,
        JsonRpcError,
    >)
        ensures
            match response {
                Err(e) => r == Err::<RoutingTableInfo, JsonRpcError>(failure_error(e)),
                Ok(t) => match r {
                    Ok(info) => table_parses(t) && table_of(info, t),
                    Err(e) => !table_parses(t) && table_error(e, t),
                },
            },
    {
        let t = match response {
            Ok(t) => t,
            Err(e) => {
                return Err(JsonRpcError::from(e));
            },
        };
        let local = match NodeId::from_hex(t.local_node_id.as_str()) {
            Ok(id) => id,
            Err(e) => {
                return Err(e);
            },
        };
        let n = t.buckets.len();
        let mut entries: Vec<RoutingEntry> = Vec::new();
        let mut i: usize = 0;
        while i < n
            invariant
                response == Ok::<RoutingTableResponse, RpcFailure>(t),
                n == t.buckets@.len(),
                0 <= i <= n,
                id_of(t.local_node_id@) == Some(local.raw@),
                entries@.len() == i,
                forall|j: int| 0 <= j < i ==> entry_parses(#[trigger] t.buckets@[j]),
                forall|j: int|
                    0 <= j < i ==> entry_of(#[trigger] entries@[j], t.buckets@[j], local.raw@),
            decreases n - i,
        {
            match analyse_entry(&local, &t.buckets[i]) {
                Ok(out) => entries.push(out),
                Err(e) => {
                    assert(entry_error(e, t.buckets@[i as int]));
                    assert(table_error(e, t));
                    return Err(e);
                },
            }
            i = i + 1;
        }
        Ok(RoutingTableInfo { local_node_id: local, entries })
    }
}

} // verus!
