use rustorrent::announce::{build_request, on_response, AnnounceConfig, AnnounceState, ChanMsg};
use rustorrent::bvalue::BValue;
use rustorrent::encode::{convert_hash, decimal_string, url_encode, url_encode_str};
use rustorrent::ip::PeerAddr;
use rustorrent::tracker::{DecodeErrorKind, TrackerEvent, TrackerReq, TrackerResp};

fn plain_request() -> TrackerReq {
    TrackerReq {
        info_hash: vec![0x12, 0x34, 0xab],
        peer_id: b"-RT0001-aaaaaaaaaaaa".to_vec(),
        port: 6881,
        uploaded: 1024,
        downloaded: 2048,
        left: 4096,
        compact: true,
        no_peer_id: false,
        event: TrackerEvent::Started,
        ip: None,
        numwant: None,
        key: None,
        trackerid: None,
    }
}

#[test]
fn percent_encoding_of_single_bytes() {
    assert_eq!(url_encode(&[0x2A]), "%2A");
    assert_eq!(url_encode(&[0x41]), "A");
    assert_eq!(url_encode(&[0x7E]), "~");
    assert_eq!(url_encode(&[0x00]), "%00");
    assert_eq!(url_encode(&[0xFF]), "%FF");
}

#[test]
fn percent_encoding_of_strings() {
    assert_eq!(url_encode_str("hello world"), "hello%20world");
    assert_eq!(url_encode_str("a.b-c_d~e"), "a.b-c_d~e");
    assert_eq!(url_encode(b"\x12\x34\xab"), "%124%AB");
}

#[test]
fn decimal_strings_are_exact() {
    assert_eq!(decimal_string(0), "0");
    assert_eq!(decimal_string(7), "7");
    assert_eq!(decimal_string(12345), "12345");
    assert_eq!(decimal_string(u64::MAX), "18446744073709551615");
}

#[test]
fn event_strings_are_exact() {
    assert_eq!(TrackerEvent::Started.to_string(), "started");
    assert_eq!(TrackerEvent::Stopped.to_string(), "stopped");
    // `Completed` maps to "complete", not "completed".
    assert_eq!(TrackerEvent::Completed.to_string(), "complete");
}

#[test]
fn completed_event_serializes_in_query() {
    let mut req = plain_request();
    req.event = TrackerEvent::Completed;
    let pairs = req.to_query_string_pairs();
    assert_eq!(pairs[8], ("event".to_string(), "complete".to_string()));
}

#[test]
fn query_pairs_hold_the_nine_keys_in_order() {
    let req = plain_request();
    let pairs = req.to_query_string_pairs();
    let keys: Vec<&str> = pairs.iter().map(|p| p.0.as_str()).collect();
    assert_eq!(
        keys,
        vec![
            "info_hash",
            "peer_id",
            "port",
            "uploaded",
            "downloaded",
            "left",
            "compact",
            "no_peer_id",
            "event"
        ]
    );
    assert_eq!(pairs[0].1, "%124%AB");
    assert_eq!(pairs[2].1, "6881");
    assert_eq!(pairs[3].1, "1024");
    assert_eq!(pairs[4].1, "2048");
    assert_eq!(pairs[5].1, "4096");
    assert_eq!(pairs[6].1, "1");
    assert_eq!(pairs[7].1, "0");
    assert_eq!(pairs[8].1, "started");
}

#[test]
fn optional_fields_appear_only_when_set() {
    let mut req = plain_request();
    req.numwant = Some(50);
    req.key = Some("s cr t".to_string());
    let pairs = req.to_query_string_pairs();
    assert_eq!(pairs.len(), 11);
    assert_eq!(pairs[9], ("numwant".to_string(), "50".to_string()));
    assert_eq!(pairs[10], ("key".to_string(), "s%20cr%20t".to_string()));
    assert!(!pairs.iter().any(|p| p.0 == "ip"));

    let mut req2 = plain_request();
    req2.ip = Some("10.0.0.1".to_string());
    let pairs2 = req2.to_query_string_pairs();
    assert_eq!(pairs2.len(), 10);
    assert_eq!(pairs2[9], ("ip".to_string(), "10.0.0.1".to_string()));
}

fn dict_with_peers(peers: BValue) -> Vec<(String, BValue)> {
    vec![("peers".to_string(), peers)]
}

#[test]
fn compact_of_twelve_bytes_gives_two_peers() {
    let bytes = vec![1u8, 2, 3, 4, 0, 80, 192, 168, 1, 1, 0x1A, 0xE1];
    let resp = TrackerResp::decode(&dict_with_peers(BValue::Str(bytes))).unwrap();
    assert_eq!(resp.peers.len(), 2);
    assert_eq!(resp.peers[0].ip, PeerAddr::V4(1, 2, 3, 4));
    assert_eq!(resp.peers[0].port, 80);
    assert!(resp.peers[0].peer_id.is_none());
    assert_eq!(resp.peers[1].ip, PeerAddr::V4(192, 168, 1, 1));
    assert_eq!(resp.peers[1].port, 6881);
}

#[test]
fn compact_of_seven_bytes_is_malformed_peers() {
    let err = TrackerResp::decode(&dict_with_peers(BValue::Str(vec![0u8; 7]))).unwrap_err();
    assert_eq!(err.kind, DecodeErrorKind::Malformed);
    assert_eq!(err.field, "peers");
}

#[test]
fn compact_single_peer_scenario() {
    let bytes = vec![192u8, 168, 1, 1, 0x1A, 0xE1];
    let resp = TrackerResp::decode(&dict_with_peers(BValue::Str(bytes))).unwrap();
    assert_eq!(resp.peers.len(), 1);
    assert_eq!(resp.peers[0].ip, PeerAddr::V4(192, 168, 1, 1));
    assert_eq!(resp.peers[0].port, 6881);
}

#[test]
fn missing_peers_key_names_peers() {
    let dict = vec![("interval".to_string(), BValue::Int(1800))];
    let err = TrackerResp::decode(&dict).unwrap_err();
    assert_eq!(err.kind, DecodeErrorKind::MissingField);
    assert_eq!(err.field, "peers");
}

#[test]
fn peers_of_wrong_shape_names_peers() {
    let err = TrackerResp::decode(&dict_with_peers(BValue::Int(3))).unwrap_err();
    assert_eq!(err.kind, DecodeErrorKind::Malformed);
    assert_eq!(err.field, "peers");
}

fn peer_entry(ip: &str, port: i64) -> BValue {
    BValue::Dict(vec![
        ("ip".to_string(), BValue::Str(ip.as_bytes().to_vec())),
        ("port".to_string(), BValue::Int(port)),
    ])
}

#[test]
fn dictionary_peer_list_decodes() {
    let peers = BValue::List(vec![
        BValue::Dict(vec![
            ("peer id".to_string(), BValue::Str(b"peer-one".to_vec())),
            ("ip".to_string(), BValue::Str(b"1.2.3.4".to_vec())),
            ("port".to_string(), BValue::Int(6881)),
        ]),
        peer_entry("2001:db8:0:0:0:0:0:1", 51413),
    ]);
    let mut dict = dict_with_peers(peers);
    dict.push(("interval".to_string(), BValue::Int(1800)));
    dict.push(("tracker id".to_string(), BValue::Str(b"t1".to_vec())));
    let resp = TrackerResp::decode(&dict).unwrap();
    assert_eq!(resp.peers.len(), 2);
    assert_eq!(resp.peers[0].peer_id, Some(b"peer-one".to_vec()));
    assert_eq!(resp.peers[0].ip, PeerAddr::V4(1, 2, 3, 4));
    assert_eq!(resp.peers[0].port, 6881);
    assert!(resp.peers[1].peer_id.is_none());
    assert_eq!(resp.peers[1].ip, PeerAddr::V6(0x2001, 0xdb8, 0, 0, 0, 0, 0, 1));
    assert_eq!(resp.peers[1].port, 51413);
    assert_eq!(resp.interval, Some(1800));
    assert_eq!(resp.tracker_id, Some(b"t1".to_vec()));
    assert_eq!(resp.min_interval, None);
    assert_eq!(resp.complete, None);
    assert_eq!(resp.failure_reason, None);
    assert_eq!(resp.warning_message, None);
}

#[test]
fn malformed_ip_text_names_ip() {
    let err = TrackerResp::decode(&dict_with_peers(BValue::List(vec![peer_entry("1.2.3", 1)])))
        .unwrap_err();
    assert_eq!(err.kind, DecodeErrorKind::Malformed);
    assert_eq!(err.field, "ip");
    // A leading zero in an octet is not accepted either.
    let err2 = TrackerResp::decode(&dict_with_peers(BValue::List(vec![peer_entry(
        "01.2.3.4", 1,
    )])))
    .unwrap_err();
    assert_eq!(err2.field, "ip");
}

#[test]
fn missing_ip_and_port_name_the_sub_field() {
    let no_ip = BValue::Dict(vec![("port".to_string(), BValue::Int(1))]);
    let err = TrackerResp::decode(&dict_with_peers(BValue::List(vec![no_ip]))).unwrap_err();
    assert_eq!(err.kind, DecodeErrorKind::MissingField);
    assert_eq!(err.field, "ip");

    let no_port = BValue::Dict(vec![("ip".to_string(), BValue::Str(b"1.2.3.4".to_vec()))]);
    let err2 = TrackerResp::decode(&dict_with_peers(BValue::List(vec![no_port]))).unwrap_err();
    assert_eq!(err2.kind, DecodeErrorKind::MissingField);
    assert_eq!(err2.field, "port");
}

#[test]
fn port_out_of_range_names_port() {
    let err = TrackerResp::decode(&dict_with_peers(BValue::List(vec![peer_entry(
        "1.2.3.4", 70000,
    )])))
    .unwrap_err();
    assert_eq!(err.kind, DecodeErrorKind::Malformed);
    assert_eq!(err.field, "port");
}

#[test]
fn scalar_fields_are_optional_and_truncated() {
    let bytes = vec![1u8, 2, 3, 4, 0, 80];
    let mut dict = dict_with_peers(BValue::Str(bytes));
    dict.push(("interval".to_string(), BValue::Int(-1)));
    dict.push(("min interval".to_string(), BValue::Int(60)));
    dict.push(("complete".to_string(), BValue::Int(0x1_0000_0005)));
    dict.push(("failure reason".to_string(), BValue::Str(b"gone".to_vec())));
    let resp = TrackerResp::decode(&dict).unwrap();
    // Wire integers keep their low 32 bits.
    assert_eq!(resp.interval, Some(u32::MAX));
    assert_eq!(resp.min_interval, Some(60));
    assert_eq!(resp.complete, Some(5));
    assert_eq!(resp.failure_reason, Some(b"gone".to_vec()));
}

#[test]
fn announce_request_is_built_from_config_and_counters() {
    let config = AnnounceConfig {
        info_hash: vec![9u8; 20],
        peer_id: b"-RT0001-048230984201".to_vec(),
        port: 12001,
    };
    let state = AnnounceState { interval: 10, uploaded: 5, downloaded: 6, left: 7 };
    let req = build_request(&config, &state, TrackerEvent::Started);
    assert_eq!(req.info_hash, vec![9u8; 20]);
    assert_eq!(req.peer_id, b"-RT0001-048230984201".to_vec());
    assert_eq!(req.port, 12001);
    assert_eq!(req.uploaded, 5);
    assert_eq!(req.downloaded, 6);
    assert_eq!(req.left, 7);
    assert!(!req.compact);
    assert!(!req.no_peer_id);
    assert_eq!(req.event, TrackerEvent::Started);
    assert!(req.ip.is_none() && req.numwant.is_none() && req.key.is_none());
}

#[test]
fn announce_cycle_emits_peers_in_order_and_adopts_interval() {
    let bytes = vec![1u8, 2, 3, 4, 0, 80, 192, 168, 1, 1, 0x1A, 0xE1];
    let mut dict = dict_with_peers(BValue::Str(bytes));
    dict.push(("interval".to_string(), BValue::Int(900)));
    let resp = TrackerResp::decode(&dict).unwrap();
    let mut state = AnnounceState { interval: 10, uploaded: 0, downloaded: 0, left: 0 };
    let msgs = on_response(&mut state, &resp);
    assert_eq!(
        msgs,
        vec![
            ChanMsg::NewPeer(PeerAddr::V4(1, 2, 3, 4), 80),
            ChanMsg::NewPeer(PeerAddr::V4(192, 168, 1, 1), 6881),
        ]
    );
    assert_eq!(state.interval, 900);

    // Without an interval in the response, the previous wait is kept.
    let resp2 = TrackerResp::decode(&dict_with_peers(BValue::Str(vec![]))).unwrap();
    let msgs2 = on_response(&mut state, &resp2);
    assert!(msgs2.is_empty());
    assert_eq!(state.interval, 900);
}

#[test]
fn hash_text_is_uppercase_hex() {
    assert_eq!(convert_hash(&vec![]), "");
    assert_eq!(convert_hash(&vec![0xA9, 0x09, 0x3E]), "A9093E");
}
