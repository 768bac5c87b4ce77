//! Client-side logic for talking to Portal network peers over JSON-RPC: peer
//! bootstrap, routing-table analysis with the XOR distance metric, and content
//! retrieval with the "content not found" sentinel folded into a normal result.

pub mod client;
pub mod content;
pub mod error;
pub mod hex_codec;
pub mod identity;
pub mod node_id;
pub mod routing;
pub mod transport;
pub mod text;

pub use client::{NodeInfoResponse, PortalClient};
pub use content::{Content, ContentDescriptor, ContentResponse, RpcRequest, SubProtocol, TraceContentResponse};
pub use error::{classify, JsonRpcError, RpcFailure, RpcOutcome, CONTENT_NOT_FOUND_ERROR_CODE};
pub use hex_codec::{decode_hex, encode_content_key};
pub use identity::NodeIdentity;
pub use node_id::NodeId;
pub use routing::{RawRoutingEntry, RoutingEntry, RoutingTableInfo, RoutingTableResponse};
pub use transport::{PortalApi, TransportConfig, REQUEST_TIMEOUT_SECS};
