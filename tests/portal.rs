use glados_core::{
    decode_hex, encode_content_key, Content, ContentDescriptor, ContentResponse, JsonRpcError,
    NodeId, NodeIdentity, NodeInfoResponse, PortalApi, PortalClient, RawRoutingEntry,
    RoutingTableResponse, RpcFailure, SubProtocol, TraceContentResponse, TransportConfig,
    CONTENT_NOT_FOUND_ERROR_CODE, REQUEST_TIMEOUT_SECS,
};

const SAMPLE_ENR: &str = "enr:-IS4QHCYrYZbAKWCBRlAy5zzaDZXJBGkcnh4MHcBFZntXNFrdvJjX04jRzjzCBOonrkTfj499SZuOh8R33Ls8RRcy5wBgmlkgnY0gmlwhH8AAAGJc2VjcDI1NmsxoQPKY0yuDUmstAHYpMa2_oxVtw0RW_QAdpzBQA8yWM0xOIN1ZHCCdl8";

fn id_with(bytes: &[(usize, u8)]) -> NodeId {
    let mut raw = [0u8; 32];
    for (i, b) in bytes {
        raw[*i] = *b;
    }
    NodeId { raw }
}

fn not_found(trace: Option<&str>) -> RpcFailure {
    RpcFailure {
        call_code: Some(CONTENT_NOT_FOUND_ERROR_CODE),
        trace: trace.map(|d| d.to_string()),
        text: "content not found".to_string(),
    }
}

fn local_one() -> String {
    format!("0x{}01", "00".repeat(31))
}

#[test]
fn distance_is_symmetric_and_zero_on_self() {
    let a = id_with(&[(0, 0x12), (31, 0x34)]);
    let b = id_with(&[(5, 0xff), (31, 0x30)]);
    assert_eq!(a.distance(&b), b.distance(&a));
    let d = a.distance(&b);
    assert_eq!(d.raw[0], 0x12);
    assert_eq!(d.raw[5], 0xff);
    assert_eq!(d.raw[31], 0x04);
    assert_eq!(a.distance(&a), NodeId { raw: [0u8; 32] });
    assert_eq!(a.distance(&a).log_distance(), 0);
    assert_eq!(NodeId { raw: [0u8; 32] }.log_distance(), 0);
}

#[test]
fn top_bit_difference_has_log_distance_256() {
    let a = id_with(&[(0, 0x5a), (9, 0x01)]);
    let b = id_with(&[(0, 0xda), (9, 0x01)]);
    assert_eq!(a.distance(&b).log_distance(), 256);
    assert_eq!(NodeId { raw: [0xffu8; 32] }.log_distance(), 256);
}

#[test]
fn log_distance_counts_leading_zero_bits() {
    assert_eq!(id_with(&[(31, 1)]).log_distance(), 1);
    assert_eq!(id_with(&[(31, 0x80)]).log_distance(), 8);
    assert_eq!(id_with(&[(30, 1)]).log_distance(), 9);
    assert_eq!(id_with(&[(1, 0x10), (31, 0xff)]).log_distance(), 245);
}

#[test]
fn hex_round_trip() {
    for bytes in [vec![], vec![0u8], vec![1, 2, 0xab, 0xff], (0..=255u8).collect::<Vec<u8>>()] {
        let text = encode_content_key(&bytes);
        assert_eq!(decode_hex(&text).unwrap(), bytes);
    }
    assert_eq!(encode_content_key(&vec![]), "0x");
    assert_eq!(encode_content_key(&vec![0x01, 0x0a, 0xff]), "0x010aff");
}

#[test]
fn hex_decode_accepts_both_cases_and_prefixes() {
    assert_eq!(decode_hex("0XaB").unwrap(), vec![0xab]);
    assert_eq!(decode_hex("aB01").unwrap(), vec![0xab, 0x01]);
    assert!(decode_hex("0x123").is_err());
    assert!(decode_hex("0xzz").is_err());
}

#[test]
fn node_id_parse() {
    let id = NodeId::from_hex(&local_one()).unwrap();
    assert_eq!(id, id_with(&[(31, 1)]));
    match NodeId::from_hex("0x0102") {
        Err(JsonRpcError::InvalidHash { input, .. }) => assert_eq!(input, "0x0102"),
        other => panic!("unexpected {other:?}"),
    }
    assert!(matches!(NodeId::from_hex("0xgg"), Err(JsonRpcError::InvalidHash { .. })));
}

#[test]
fn sentinel_error_becomes_not_found() {
    match JsonRpcError::from(not_found(Some("{}"))) {
        JsonRpcError::ContentNotFound { trace } => assert_eq!(trace.as_deref(), Some("{}")),
        other => panic!("unexpected {other:?}"),
    }
    let other = RpcFailure { call_code: Some(-32601), trace: None, text: "method not found".to_string() };
    match JsonRpcError::from(other) {
        JsonRpcError::HttpClient(text) => assert_eq!(text, "method not found"),
        e => panic!("unexpected {e:?}"),
    }
    let transport = RpcFailure { call_code: None, trace: None, text: "connection refused".to_string() };
    assert!(matches!(JsonRpcError::from(transport), JsonRpcError::HttpClient(_)));
}

#[test]
fn content_not_found_without_trace_is_absent() {
    let r = PortalApi::get_content(Err(not_found(None)));
    assert!(matches!(r, Ok(None)));
}

#[test]
fn traced_not_found_keeps_trace() {
    let trace = r#"{"origin":"0x01"}"#;
    match PortalApi::get_content_with_trace(Err(not_found(Some(trace)))) {
        Ok((None, t)) => assert_eq!(t.as_deref(), Some(trace)),
        other => panic!("unexpected {:?}", other.map(|(c, t)| (c.map(|c| c.raw), t))),
    }
    match PortalApi::get_content_with_trace(Err(not_found(None))) {
        Ok((None, t)) => assert_eq!(t, None),
        _ => panic!("expected absence"),
    }
    match PortalApi::get_content_with_trace(Err(not_found(Some("")))) {
        Ok((None, t)) => assert_eq!(t.as_deref(), Some("")),
        _ => panic!("expected absence"),
    }
}

#[test]
fn content_found_is_decoded() {
    let r = PortalApi::get_content(Ok(ContentResponse { content: Some("0x0102ff".to_string()) }));
    let Ok(Some(Content { raw })) = r else { panic!("expected content") };
    assert_eq!(raw, vec![1, 2, 0xff]);
    let r = PortalApi::get_content(Ok(ContentResponse { content: None }));
    assert!(matches!(r, Ok(None)));
    let r = PortalApi::get_content_with_trace(Ok(TraceContentResponse {
        content: "0xabcd".to_string(),
        trace: "{}".to_string(),
    }));
    let Ok((Some(c), t)) = r else { panic!("expected content") };
    assert_eq!(c.raw, vec![0xab, 0xcd]);
    assert_eq!(t.as_deref(), Some("{}"));
}

#[test]
fn content_errors_propagate() {
    let r = PortalApi::get_content(Ok(ContentResponse { content: Some("0x0".to_string()) }));
    match r {
        Err(JsonRpcError::InvalidHex { input, .. }) => assert_eq!(input, "0x0"),
        _ => panic!("expected a decode error"),
    }
    let failure = RpcFailure { call_code: None, trace: None, text: "timed out".to_string() };
    match PortalApi::get_content_with_trace(Err(failure)) {
        Err(JsonRpcError::HttpClient(text)) => assert_eq!(text, "timed out"),
        _ => panic!("expected a transport error"),
    }
}

#[test]
fn content_request_selects_method_and_encodes_key() {
    let d = ContentDescriptor { protocol_id: SubProtocol::State, content_key: vec![0x20, 0x01] };
    let r = PortalApi::content_request(&d, false);
    assert_eq!(r.method, "portal_stateRecursiveFindContent");
    assert_eq!(r.params, vec!["0x2001".to_string()]);
    assert_eq!(decode_hex(&r.params[0][2..]).unwrap(), d.content_key);
    let d = ContentDescriptor { protocol_id: SubProtocol::History, content_key: vec![0x00] };
    let r = PortalApi::content_request(&d, true);
    assert_eq!(r.method, "portal_historyTraceRecursiveFindContent");
    assert_eq!(SubProtocol::Beacon.find_content_method(), "portal_beaconRecursiveFindContent");
    assert_eq!(
        SubProtocol::Beacon.trace_find_content_method(),
        "portal_beaconTraceRecursiveFindContent"
    );
    assert_eq!(PortalApi::client_version_request().method, "web3_clientVersion");
    assert_eq!(PortalApi::node_info_request().method, "discv5_nodeInfo");
    assert_eq!(PortalApi::routing_table_info_request().method, "discv5_routingTableInfo");
    assert!(PortalApi::routing_table_info_request().params.is_empty());
}

fn api() -> PortalApi {
    PortalApi::new("http://127.0.0.1:8545".to_string()).unwrap()
}

fn bootstrap(banner: &str, enr: &str) -> Result<PortalClient, JsonRpcError> {
    PortalClient::from(
        api(),
        Ok(banner.to_string()),
        Ok(NodeInfoResponse { enr: enr.to_string(), node_id: String::new() }),
    )
}

#[test]
fn banner_decides_trace_capability() {
    assert!(bootstrap("trin/0.1.0", SAMPLE_ENR).unwrap().supports_trace());
    assert!(bootstrap("fluffy v0.2", SAMPLE_ENR).unwrap().supports_trace());
    assert!(!bootstrap("geth/1.0", SAMPLE_ENR).unwrap().supports_trace());
    assert!(!bootstrap("Trin/0.1.0", SAMPLE_ENR).unwrap().supports_trace());
}

#[test]
fn bootstrap_builds_the_handle() {
    let peer = bootstrap("\"trin/0.1.0\"", SAMPLE_ENR).unwrap();
    assert_eq!(peer.client_info(), "trin/0.1.0");
    assert_eq!(peer.enr().seq, 1);
    assert_eq!(peer.enr().text, SAMPLE_ENR);
    assert_eq!(peer.api().url, "http://127.0.0.1:8545/");
}

#[test]
fn bootstrap_stops_at_the_first_failed_call() {
    let refused = RpcFailure { call_code: None, trace: None, text: "refused".to_string() };
    let r = PortalClient::from(
        api(),
        Err(refused),
        Ok(NodeInfoResponse { enr: "enr:bad".to_string(), node_id: String::new() }),
    );
    match r {
        Err(JsonRpcError::HttpClient(text)) => assert_eq!(text, "refused"),
        _ => panic!("expected the transport error"),
    }
    let timed_out = RpcFailure { call_code: None, trace: None, text: "timed out".to_string() };
    let r = PortalClient::from(api(), Ok("trin".to_string()), Err(timed_out));
    assert!(matches!(r, Err(JsonRpcError::HttpClient(_))));
}

#[test]
fn malformed_identity_fails_client_bootstrap() {
    match bootstrap("trin/0.1.0", "enr:not-a-record") {
        Err(JsonRpcError::InvalidEnr { enr_string, error }) => {
            assert_eq!(enr_string, "enr:not-a-record");
            assert!(!error.is_empty());
        }
        _ => panic!("expected an identity error"),
    }
}

#[test]
fn client_version_loses_quotes() {
    let v = PortalApi::get_client_version(Ok("\"trin/0.1.0\"".to_string())).unwrap();
    assert_eq!(v, "trin/0.1.0");
    let v = PortalApi::get_client_version(Ok("trin/0.1.0".to_string())).unwrap();
    assert_eq!(v, "trin/0.1.0");
    let failure = RpcFailure { call_code: None, trace: None, text: "refused".to_string() };
    assert!(matches!(PortalApi::get_client_version(Err(failure)), Err(JsonRpcError::HttpClient(_))));
}

#[test]
fn malformed_identity_fails_bootstrap() {
    let r = PortalApi::get_node_info(Ok(NodeInfoResponse {
        enr: "enr:not-a-record".to_string(),
        node_id: local_one(),
    }));
    match r {
        Err(JsonRpcError::InvalidEnr { enr_string, .. }) => assert_eq!(enr_string, "enr:not-a-record"),
        _ => panic!("expected an identity error"),
    }
}

#[test]
fn identity_parses() {
    let n = NodeIdentity::parse(SAMPLE_ENR).unwrap();
    assert_eq!(n.seq, 1);
    assert_eq!(
        encode_content_key(&n.node_id.raw.to_vec()),
        "0xa448f24c6d18e575453db13171562b71999873db5b286df957af199ec94617f7"
    );
    assert_eq!(n.text, SAMPLE_ENR);
    let r = PortalApi::get_node_info(Ok(NodeInfoResponse {
        enr: SAMPLE_ENR.to_string(),
        node_id: String::new(),
    }));
    assert_eq!(r.unwrap().seq, 1);
}

#[test]
fn routing_entry_equal_to_local_is_at_zero() {
    let t = RoutingTableResponse {
        local_node_id: local_one(),
        buckets: vec![RawRoutingEntry {
            node_id: local_one(),
            enr: SAMPLE_ENR.to_string(),
            status: "Connected".to_string(),
        }],
    };
    let info = PortalApi::get_routing_table_info(Ok(t)).unwrap();
    assert_eq!(info.local_node_id, id_with(&[(31, 1)]));
    assert_eq!(info.entries.len(), 1);
    let e = &info.entries[0];
    assert_eq!(e.distance, NodeId { raw: [0u8; 32] });
    assert_eq!(e.log_distance, 0);
    assert_eq!(e.status, "Connected");
}

#[test]
fn routing_table_distances() {
    let far = format!("0x80{}", "00".repeat(31));
    let t = RoutingTableResponse {
        local_node_id: local_one(),
        buckets: vec![RawRoutingEntry { node_id: far, enr: SAMPLE_ENR.to_string(), status: "Disconnected".to_string() }],
    };
    let info = PortalApi::get_routing_table_info(Ok(t)).unwrap();
    assert_eq!(info.entries[0].log_distance, 256);
    assert_eq!(info.entries[0].distance, id_with(&[(0, 0x80), (31, 1)]));
}

#[test]
fn routing_table_bad_entry_fails_the_call() {
    let t = RoutingTableResponse {
        local_node_id: local_one(),
        buckets: vec![
            RawRoutingEntry { node_id: local_one(), enr: SAMPLE_ENR.to_string(), status: "Connected".to_string() },
            RawRoutingEntry { node_id: "0x12".to_string(), enr: SAMPLE_ENR.to_string(), status: "Connected".to_string() },
        ],
    };
    match PortalApi::get_routing_table_info(Ok(t)) {
        Err(JsonRpcError::InvalidHash { input, .. }) => assert_eq!(input, "0x12"),
        _ => panic!("expected a hash error"),
    }
    let t = RoutingTableResponse {
        local_node_id: local_one(),
        buckets: vec![RawRoutingEntry { node_id: local_one(), enr: "enr:bad".to_string(), status: String::new() }],
    };
    match PortalApi::get_routing_table_info(Ok(t)) {
        Err(JsonRpcError::InvalidEnr { enr_string, .. }) => assert_eq!(enr_string, "enr:bad"),
        _ => panic!("expected an identity error"),
    }
    let t = RoutingTableResponse {
        local_node_id: local_one(),
        buckets: vec![
            RawRoutingEntry { node_id: local_one(), enr: "enr:first".to_string(), status: String::new() },
            RawRoutingEntry { node_id: "0x34".to_string(), enr: SAMPLE_ENR.to_string(), status: String::new() },
            RawRoutingEntry { node_id: "0x56".to_string(), enr: "enr:third".to_string(), status: String::new() },
        ],
    };
    match PortalApi::get_routing_table_info(Ok(t)) {
        Err(JsonRpcError::InvalidEnr { enr_string, .. }) => assert_eq!(enr_string, "enr:first"),
        _ => panic!("expected the first entry's identity error"),
    }
    let t = RoutingTableResponse {
        local_node_id: local_one(),
        buckets: vec![RawRoutingEntry { node_id: "0x78".to_string(), enr: "enr:bad".to_string(), status: String::new() }],
    };
    match PortalApi::get_routing_table_info(Ok(t)) {
        Err(JsonRpcError::InvalidHash { input, .. }) => assert_eq!(input, "0x78"),
        _ => panic!("expected the id error before the record error"),
    }
    let t = RoutingTableResponse { local_node_id: "nope".to_string(), buckets: vec![] };
    assert!(matches!(PortalApi::get_routing_table_info(Ok(t)), Err(JsonRpcError::InvalidHash { .. })));
}

#[test]
fn transport_binding() {
    let api = PortalApi::new("http://localhost:8545".to_string()).unwrap();
    assert_eq!(api.url, "http://localhost:8545/");
    assert_eq!(api.request_timeout_secs, REQUEST_TIMEOUT_SECS);
    assert_eq!(REQUEST_TIMEOUT_SECS, 120);
    match PortalApi::new("/tmp/trin-jsonrpc.ipc".to_string()) {
        Err(JsonRpcError::UnsupportedTransport { url }) => assert_eq!(url, "/tmp/trin-jsonrpc.ipc"),
        _ => panic!("expected unsupported transport"),
    }
    match PortalApi::new("ws://localhost:8546".to_string()) {
        Err(JsonRpcError::ClientURL { url }) => assert_eq!(url, "ws://localhost:8546"),
        _ => panic!("expected a URL error"),
    }
    assert!(matches!(PortalApi::new("http://[::1".to_string()), Err(JsonRpcError::ClientURL { .. })));
    assert!(matches!(TransportConfig::from_url("/run/portal.ipc"), Ok(TransportConfig::IPC(_))));
}

