use base64::Engine;
use lora_urbit::lorawan::{decode_phy_payload, FrameError};
use lora_urbit::udp::protocol::{Decimal, GwmpPacket, ParseError, PushDataPayload, Rxpk};
use lora_urbit::udp::{
    build_txpk, frame_to_lora_packet, handle_datagram, handle_packet, pull_resp_envelope,
    receive_push_data, receive_rxpk, rxpk_size_matches, send_downlink, token_from_clock,
    uplink_from_phy,
    uplink_from_rxpk, DatagramError, Dispatch,
    DownlinkError, GatewayTracker, PeerAddr, TxResult, UplinkError,
};
use lora_urbit::urbit::types::{PacketSource, Timestamp};

const EUI: [u8; 8] = [0xAA, 0xBB, 0xCC, 0xDD, 0xEE, 0xFF, 0x00, 0x11];

fn local(port: u16) -> PeerAddr {
    // 127.0.0.1
    PeerAddr::V4 { ip: 0x7F00_0001, port }
}

fn rxpk_with(data: &str) -> Rxpk {
    Rxpk {
        time: None,
        tmst: Some(12345),
        tmms: None,
        chan: Some(2),
        rfch: Some(0),
        freq: Decimal { millionths: 902_300_000 },
        lsnr: Some(Decimal { millionths: 7_500_000 }),
        rssi: Decimal { millionths: -65_000_000 },
        modu: Some("LORA".to_string()),
        datr: "SF7BW125".to_string(),
        codr: Some("4/5".to_string()),
        size: 15,
        data: data.to_string(),
    }
}

#[test]
fn test_gateway_tracker() {
    let mut tracker = GatewayTracker::new();
    assert!(tracker.get().is_none());

    let addr = local(1700);
    tracker.set(addr);
    assert_eq!(tracker.get(), Some(addr));

    // Update with new address
    let addr2 = local(1701);
    tracker.set(addr2);
    assert_eq!(tracker.get(), Some(addr2));
}

#[test]
fn tracker_says_whether_the_address_is_news() {
    let mut tracker = GatewayTracker::new();
    assert!(tracker.set(local(1700)));
    assert!(!tracker.set(local(1700)));
    assert!(tracker.set(local(1701)));
    let v6 = PeerAddr::V6 { ip: 1, port: 1701, flowinfo: 0, scope_id: 0 };
    assert!(tracker.set(v6));
    assert_eq!(tracker.get(), Some(v6));
}

#[test]
fn test_build_txpk() {
    let txpk = build_txpk("AQIDBA==", 4);
    assert_eq!(txpk.freq.millionths as f64 / 1e6, 923.3);
    assert_eq!(txpk.imme, Some(true));
    assert_eq!(txpk.ipol, Some(true));
    assert_eq!(txpk.datr, "SF12BW500");
    assert_eq!(txpk.data, "AQIDBA==");
    assert_eq!(txpk.size, 4);
}

#[test]
fn build_txpk_sets_every_field() {
    let txpk = build_txpk("", 0);
    assert_eq!(txpk.freq, Decimal { millionths: 923_300_000 });
    assert_eq!(txpk.tmst, None);
    assert_eq!(txpk.rfch, Some(0));
    assert_eq!(txpk.powe, Some(27));
    assert_eq!(txpk.modu.as_deref(), Some("LORA"));
    assert_eq!(txpk.codr.as_deref(), Some("4/5"));
    assert_eq!(txpk.ncrc, Some(true));
    assert_eq!(txpk.data, "");
    assert_eq!(txpk.size, 0);
}

#[test]
fn push_ack_round_trip() {
    let datagram =
        [0x02, 0x00, 0x2A, 0x00, 0xAA, 0xBB, 0xCC, 0xDD, 0xEE, 0xFF, 0x00, 0x11, 0x7B, 0x7D];
    let mut tracker = GatewayTracker::new();
    match handle_datagram(&mut tracker, local(40000), &datagram).unwrap() {
        Dispatch::Uplink { ack, gateway_eui, json_payload } => {
            assert_eq!(ack, vec![0x02, 0x00, 0x2A, 0x01]);
            assert_eq!(gateway_eui, "aabbccddeeff0011");
            assert_eq!(json_payload, "{}");
        }
        other => panic!("expected an uplink, got {:?}", other),
    }
    // A PUSH_DATA shows where the gateway is, too.
    assert_eq!(tracker.get(), Some(local(40000)));
}

#[test]
fn push_data_is_acknowledged_with_its_token() {
    for token in [0u16, 0x00FF, 0x0100, 0xABCD, 0xFFFF] {
        let datagram = GwmpPacket::push_data(token, &EUI, b"not even json");
        let mut tracker = GatewayTracker::new();
        match handle_datagram(&mut tracker, local(1), &datagram).unwrap() {
            Dispatch::Uplink { ack, json_payload, .. } => {
                assert_eq!(ack.len(), 4);
                assert_eq!(ack, vec![0x02, datagram[1], datagram[2], 0x01]);
                assert_eq!(ack, GwmpPacket::push_ack(token));
                assert_eq!(json_payload, "not even json");
            }
            other => panic!("expected an uplink, got {:?}", other),
        }
    }
}

#[test]
fn pull_data_is_acknowledged_and_tracked() {
    let mut tracker = GatewayTracker::new();
    let datagram = GwmpPacket::pull_data(0x0A0B, &EUI);
    match handle_datagram(&mut tracker, local(1700), &datagram).unwrap() {
        Dispatch::Keepalive { ack, gateway_eui } => {
            assert_eq!(ack, vec![0x02, 0x0A, 0x0B, 0x04]);
            assert_eq!(gateway_eui, "aabbccddeeff0011");
        }
        other => panic!("expected a keepalive, got {:?}", other),
    }
    assert_eq!(tracker.get(), Some(local(1700)));
}

#[test]
fn tracker_keeps_the_latest_gateway_address() {
    let mut tracker = GatewayTracker::new();
    let a = local(1700);
    let b = local(1701);
    let c = local(1702);
    handle_datagram(&mut tracker, a, &GwmpPacket::pull_data(1, &EUI)).unwrap();
    assert_eq!(tracker.get(), Some(a));
    // Acknowledgements, a PULL_RESP and a TX_ACK from elsewhere change nothing.
    for datagram in [
        GwmpPacket::push_ack(2),
        GwmpPacket::pull_ack(3),
        GwmpPacket::pull_resp(4, "{}"),
        GwmpPacket::tx_ack(5, &EUI),
    ] {
        handle_datagram(&mut tracker, b, &datagram).unwrap();
        assert_eq!(tracker.get(), Some(a));
    }
    // Neither does a datagram that is dropped.
    assert!(handle_datagram(&mut tracker, b, &[0x02, 0x00]).is_err());
    assert_eq!(tracker.get(), Some(a));
    // Another PULL_DATA or PUSH_DATA overwrites it.
    handle_datagram(&mut tracker, b, &GwmpPacket::pull_data(6, &EUI)).unwrap();
    assert_eq!(tracker.get(), Some(b));
    handle_datagram(&mut tracker, c, &GwmpPacket::push_data(7, &EUI, b"{}")).unwrap();
    assert_eq!(tracker.get(), Some(c));
}

#[test]
fn acknowledgements_and_pull_resp_are_ignored() {
    let mut tracker = GatewayTracker::new();
    for packet in [
        GwmpPacket::PushAck { random_token: 1 },
        GwmpPacket::PullAck { random_token: 2 },
        GwmpPacket::PullResp { random_token: 3, json_payload: "{}".to_string() },
    ] {
        assert!(matches!(handle_packet(&mut tracker, local(9), packet), Dispatch::Ignored));
    }
    assert_eq!(tracker.get(), None);
}

#[test]
fn malformed_and_oversize_datagrams_are_dropped() {
    let mut tracker = GatewayTracker::new();
    assert_eq!(
        handle_datagram(&mut tracker, local(1), &[0x01, 0, 0, 0]).unwrap_err(),
        DatagramError::Malformed(ParseError::UnsupportedVersion { version: 1 })
    );
    assert_eq!(
        handle_datagram(&mut tracker, local(1), &[0x02, 0, 0, 0x09]).unwrap_err(),
        DatagramError::Malformed(ParseError::UnknownPacketType { id: 9 })
    );
    let mut big = GwmpPacket::push_data(1, &EUI, b"");
    big.resize(65536, b' ');
    assert_eq!(
        handle_datagram(&mut tracker, local(1), &big).unwrap_err(),
        DatagramError::Oversize { len: 65536 }
    );
    big.truncate(65535);
    assert!(handle_datagram(&mut tracker, local(1), &big).is_ok());
}

#[test]
fn tx_ack_reports() {
    let cases: [(Option<&str>, Option<Result<(), &str>>); 9] = [
        (None, Some(Ok(()))),
        (Some("{\"txpk_ack\":{\"error\":\"NONE\"}}"), Some(Ok(()))),
        (Some("{\"txpk_ack\":{}}"), Some(Ok(()))),
        (Some("{\"txpk_ack\":{\"error\":7}}"), Some(Ok(()))),
        (Some("{}"), Some(Ok(()))),
        (Some("[1,2]"), Some(Ok(()))),
        (Some("{\"txpk_ack\":{\"error\":\"TOO_LATE\"}}"), Some(Err("TOO_LATE"))),
        (Some("{\"txpk_ack\":{\"error\":\"none\"}}"), Some(Err("none"))),
        (Some("{\"txpk_ack\":"), None),
    ];
    for (body, expected) in cases {
        let got = TxResult::from_tx_ack(body);
        match (got, expected) {
            (Some(TxResult::Success), Some(Ok(()))) => {}
            (Some(TxResult::Error(reason)), Some(Err(want))) => assert_eq!(reason, want),
            (None, None) => {}
            (got, want) => panic!("for {:?}: got {:?}, expected {:?}", body, got, want),
        }
    }
}

#[test]
fn tx_result_from_error_field() {
    assert!(matches!(TxResult::from_error(None), TxResult::Success));
    assert!(matches!(TxResult::from_error(Some("NONE")), TxResult::Success));
    assert!(matches!(TxResult::from_error(Some("")), TxResult::Error(r) if r.is_empty()));
    assert!(
        matches!(TxResult::from_error(Some("COLLISION_PACKET")), TxResult::Error(r) if r == "COLLISION_PACKET")
    );
}

#[test]
fn tx_ack_datagram_is_reported_with_its_gateway() {
    let mut tracker = GatewayTracker::new();
    let mut datagram = GwmpPacket::tx_ack(1, &EUI);
    datagram.extend_from_slice(b"{\"txpk_ack\":{\"error\":\"TX_POWER\"}}");
    match handle_datagram(&mut tracker, local(1), &datagram).unwrap() {
        Dispatch::TxReport { gateway_eui, result } => {
            assert_eq!(gateway_eui, "aabbccddeeff0011");
            assert!(matches!(result, Some(TxResult::Error(r)) if r == "TX_POWER"));
        }
        other => panic!("expected a transmission report, got {:?}", other),
    }
    assert_eq!(tracker.get(), None);
}

#[test]
fn uplink_decode() {
    let phy = [
        0x40, 0x04, 0x03, 0x02, 0x01, 0x00, 0x01, 0x00, 0x01, 0xAA, 0xBB, 0xEF, 0xBE, 0xAD, 0xDE,
    ];
    let rxpk = rxpk_with(&base64::engine::general_purpose::STANDARD.encode(phy));
    let at = Timestamp { secs: 1_700_000_000, nanos: 5 };
    let packet = uplink_from_rxpk(&rxpk, "aabbccddeeff0011", at).unwrap().unwrap();
    assert_eq!(packet.dev_addr, "01020304");
    assert_eq!(packet.fcnt, 1);
    assert_eq!(packet.f_port, Some(1));
    assert_eq!(packet.payload, "aabb");
    assert_eq!(packet.mtype, "UnconfirmedDataUp");
    assert_eq!(packet.rssi, Decimal { millionths: -65_000_000 });
    assert_eq!(packet.snr, Some(Decimal { millionths: 7_500_000 }));
    assert_eq!(packet.freq, Decimal { millionths: 902_300_000 });
    assert_eq!(packet.data_rate, "SF7BW125");
    assert_eq!(packet.gateway_eui, "aabbccddeeff0011");
    assert_eq!(packet.received_at, at);
    assert_eq!(packet.source, PacketSource::Local);
}

#[test]
fn uplink_address_is_upper_case_and_padded() {
    let rxpk = rxpk_with("");
    let at = Timestamp { secs: 0, nanos: 0 };
    for (addr, text) in [(0u32, "00000000"), (0xDEADBEEF, "DEADBEEF"), (0x0000_0A0B, "00000A0B")] {
        let mut phy = vec![0x80];
        phy.extend_from_slice(&addr.to_le_bytes());
        phy.extend_from_slice(&[0x00, 0x34, 0x12, 2, 0x0F, 0xF0, 0, 0, 0, 0]);
        let packet = uplink_from_phy(&phy, &rxpk, "gw", at).unwrap().unwrap();
        assert_eq!(packet.dev_addr, text);
        assert_eq!(packet.fcnt, 0x1234);
        assert_eq!(packet.payload, "0ff0");
        assert_eq!(packet.mtype, "ConfirmedDataUp");
    }
}

#[test]
fn uplink_without_payload_has_no_port() {
    let phy = [0x40, 1, 0, 0, 0, 0x00, 9, 0, 0, 0, 0, 0];
    let packet = uplink_from_phy(&phy, &rxpk_with(""), "gw", Timestamp { secs: 1, nanos: 2 })
        .unwrap()
        .unwrap();
    assert_eq!(packet.f_port, None);
    assert_eq!(packet.payload, "");
    assert_eq!(packet.fcnt, 9);
}

#[test]
fn frames_that_are_no_data_go_nowhere() {
    let join = [
        0x00, 0x01, 0x02, 0x03, 0x04, 0x05, 0x06, 0x07, 0x08, 0xA1, 0xA2, 0xA3, 0xA4, 0xA5, 0xA6,
        0xA7, 0xA8, 0x42, 0x00, 0xEF, 0xBE, 0xAD, 0xDE,
    ];
    let at = Timestamp { secs: 0, nanos: 0 };
    let rxpk = rxpk_with(&base64::engine::general_purpose::STANDARD.encode(join));
    assert!(uplink_from_rxpk(&rxpk, "gw", at).unwrap().is_none());
    let frame = decode_phy_payload(&join).unwrap();
    assert!(frame_to_lora_packet(&frame, &rxpk, "gw", at).is_none());
    let frame = decode_phy_payload(&[0xE0, 1]).unwrap();
    assert!(frame_to_lora_packet(&frame, &rxpk, "gw", at).is_none());
}

#[test]
fn uplink_errors() {
    let at = Timestamp { secs: 0, nanos: 0 };
    assert_eq!(
        uplink_from_rxpk(&rxpk_with("not base64!"), "gw", at).unwrap_err(),
        UplinkError::Base64
    );
    // Padding that is missing is refused as well.
    assert_eq!(uplink_from_rxpk(&rxpk_with("QAE"), "gw", at).unwrap_err(), UplinkError::Base64);
    assert_eq!(
        uplink_from_rxpk(&rxpk_with(""), "gw", at).unwrap_err(),
        UplinkError::Frame(FrameError::Empty)
    );
    // "QAECAwQ=" is 40 01 02 03 04.
    assert_eq!(
        uplink_from_rxpk(&rxpk_with("QAECAwQ="), "gw", at).unwrap_err(),
        UplinkError::Frame(FrameError::TooShort { len: 5 })
    );
}

#[test]
fn received_now_is_stamped_with_the_clock() {
    let phy = [0x40, 1, 0, 0, 0, 0x00, 9, 0, 1, 0xAB, 0, 0, 0, 0];
    let rxpk = rxpk_with(&base64::engine::general_purpose::STANDARD.encode(phy));
    let packet = receive_rxpk(&rxpk, "gw").unwrap().unwrap();
    assert_eq!(packet.payload, "ab");
    // Later than the first of January 2020.
    assert!(packet.received_at.secs > 1_577_836_800);
    assert!(packet.received_at.nanos < 2_000_000_000);
    assert_eq!(receive_rxpk(&rxpk_with("***"), "gw").unwrap_err(), UplinkError::Base64);
}

#[test]
fn downlink_fails_without_a_gateway() {
    let tracker = GatewayTracker::new();
    for _ in 0..3 {
        assert_eq!(
            send_downlink(&tracker, "{}").unwrap_err(),
            DownlinkError::NoGatewayAddress
        );
        assert_eq!(
            tracker.downlink(7, "{\"imme\":true}").unwrap_err(),
            DownlinkError::NoGatewayAddress
        );
    }
}

#[test]
fn downlink_goes_to_the_tracked_gateway() {
    let mut tracker = GatewayTracker::new();
    handle_datagram(&mut tracker, local(1700), &GwmpPacket::pull_data(1, &EUI)).unwrap();
    let downlink = tracker.downlink(0x0102, "{\"imme\":true}").unwrap();
    assert_eq!(downlink.dest, local(1700));
    let mut expected = vec![0x02, 0x01, 0x02, 0x03];
    expected.extend_from_slice(b"{\"txpk\":{\"imme\":true}}");
    assert_eq!(downlink.datagram, expected);

    let downlink = send_downlink(&tracker, "{\"imme\":true}").unwrap();
    assert_eq!(downlink.dest, local(1700));
    assert_eq!(downlink.datagram[0], 0x02);
    assert_eq!(downlink.datagram[3], 0x03);
    assert_eq!(&downlink.datagram[4..], b"{\"txpk\":{\"imme\":true}}");
    match GwmpPacket::parse(&downlink.datagram).unwrap() {
        GwmpPacket::PullResp { json_payload, .. } => {
            assert_eq!(json_payload, "{\"txpk\":{\"imme\":true}}")
        }
        other => panic!("expected PULL_RESP, got {:?}", other),
    }
}

#[test]
fn envelope_wraps_the_request() {
    assert_eq!(pull_resp_envelope("{}"), "{\"txpk\":{}}");
    assert_eq!(pull_resp_envelope(""), "{\"txpk\":}");
    assert_eq!(pull_resp_envelope("{\"datr\":\"é\"}"), "{\"txpk\":{\"datr\":\"é\"}}");
}

#[test]
fn push_data_gives_one_outcome_for_each_packet_in_order() {
    let encode = |phy: &[u8]| base64::engine::general_purpose::STANDARD.encode(phy);
    let first = [0x40, 1, 0, 0, 0, 0x00, 1, 0, 1, 0x11, 0, 0, 0, 0];
    let join = [0u8; 23];
    let third = [0x80, 3, 0, 0, 0, 0x00, 3, 0, 1, 0x33, 0, 0, 0, 0];
    let payload = PushDataPayload {
        rxpk: Some(vec![
            rxpk_with(&encode(&first)),
            rxpk_with("%%%"),
            rxpk_with(&encode(&join)),
            rxpk_with(&encode(&[0x40, 1])),
            rxpk_with(&encode(&third)),
        ]),
        stat: None,
    };
    let outcomes = receive_push_data(&payload, "0102030405060708");
    assert_eq!(outcomes.len(), 5);
    let summary: Vec<Result<Option<(String, String)>, UplinkError>> = outcomes
        .into_iter()
        .map(|o| o.map(|p| p.map(|p| (p.dev_addr, p.payload))))
        .collect();
    assert_eq!(
        summary,
        vec![
            Ok(Some(("00000001".to_string(), "11".to_string()))),
            Err(UplinkError::Base64),
            Ok(None),
            Err(UplinkError::Frame(FrameError::TooShort { len: 2 })),
            Ok(Some(("00000003".to_string(), "33".to_string()))),
        ]
    );
    let nothing = PushDataPayload { rxpk: None, stat: Some(serde_json::Value::Null) };
    assert!(receive_push_data(&nothing, "gw").is_empty());
    let empty = PushDataPayload { rxpk: Some(vec![]), stat: None };
    assert!(receive_push_data(&empty, "gw").is_empty());
}

#[test]
fn stated_size_is_held_against_the_payload() {
    let mut rxpk = rxpk_with("QAECAwQ="); // five bytes
    rxpk.size = 5;
    assert!(rxpk_size_matches(&rxpk));
    rxpk.size = 6;
    assert!(!rxpk_size_matches(&rxpk));
    rxpk.size = 0;
    rxpk.data = String::new();
    assert!(rxpk_size_matches(&rxpk));
    rxpk.data = "?".to_string();
    assert!(!rxpk_size_matches(&rxpk));
}

#[test]
fn token_is_the_low_half_of_the_nanoseconds() {
    for (nanos, token) in [
        (0u32, 0u16),
        (0xFFFF, 0xFFFF),
        (0x1_0000, 0),
        (0x1234_5678, 0x5678),
        (999_999_999, 0xC9FF),
        (u32::MAX, 0xFFFF),
    ] {
        assert_eq!(token_from_clock(Timestamp { secs: 1_700_000_000, nanos }), token);
        assert_eq!(token_from_clock(Timestamp { secs: -1, nanos }), token);
    }
}
