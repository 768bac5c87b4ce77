use vstd::prelude::*;
use crate::error::JsonRpcError;
use crate::node_id::NodeId;

verus! {

/// The node id and sequence number that a self-describing identity record
/// (ENR) in its text form carries, or `None` if the text is no valid record.
pub uninterp spec fn enr_record_of(s: Seq<char>) -> Option<(Seq<u8>, u64)>;

/// Relies on `enr::Enr::<CombinedKey>::from_str` (with `node_id` and `seq` of
/// the record read): whether the text parses, and what it holds, depends on
/// the text alone; on failure it gives a description.
#[verifier::external_body]
fn decode_enr(s: &str) -> (r: Result<([u8; 32], u64), String>)
    ensures
        match r {
            Ok((id, seq)) => enr_record_of(s@) == Some((id@, seq)),
            Err(_) => enr_record_of(s@) is None,
        },
{
    match <enr::Enr<enr::CombinedKey> as std::str::FromStr>::from_str(s) {
        Ok(record) => Ok((record.node_id().raw(), record.seq())),
        Err(error) => Err(error),
    }
}

/// A parsed identity record: its node id and sequence number, and the text
/// it was read from.
pub struct NodeIdentity {
    pub node_id: NodeId,
    pub seq: u64,
    pub text: String,
}

/// `n` is what the record text `s` holds.
pub open spec fn identity_of(n: NodeIdentity, s: Seq<char>) -> bool {
    &&& enr_record_of(s) == Some((n.node_id.raw@, n.seq))
    &&& n.text@ == s
}

/// `e` is the error for the record text `s` that does not parse.
pub open spec fn is_enr_error_for(e: JsonRpcError, s: Seq<char>) -> bool {
    e matches JsonRpcError::InvalidEnr { enr_string, .. } && enr_string@ == s
}

impl NodeIdentity {
    /// Parses an identity record from its text form; a text that is no
    /// record gives `InvalidEnr`, holding the text and the cause.
    pub fn parse(s: &str) -> (r: Result<NodeIdentity, JsonRpcError>)
        ensures
            match r {
                Ok(n) => identity_of(n, s@),
                Err(e) => enr_record_of(s@) is None && is_enr_error_for(e, s@),
            },
    {
        match decode_enr(s) {
            Ok((raw, seq)) => Ok(NodeIdentity { node_id: NodeId { raw }, seq, text: s.to_owned() }),
            Err(error) => Err(JsonRpcError::InvalidEnr { error, enr_string: s.to_owned() }),
        }
    }
}

} // verus!
