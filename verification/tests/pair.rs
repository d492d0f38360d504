use lora_urbit::pair::{
    txpk_to_rxpk, DropReason, GatewayPair, RelayAction, RelayTxpk, Side, FIRST_TOKEN,
    KEEPALIVE_PERIOD_SECS,
};
use lora_urbit::udp::protocol::{Decimal, GwmpPacket};
use lora_urbit::udp::PeerAddr;

const EUI_A: [u8; 8] = [0xAA, 0, 0, 0, 0, 0, 0, 0x01];
const EUI_B: [u8; 8] = [0xBB, 0, 0, 0, 0, 0, 0, 0x02];
const BRIDGE_EUI: [u8; 8] = [1, 2, 3, 4, 5, 6, 7, 8];

fn local(port: u16) -> PeerAddr {
    PeerAddr::V4 { ip: 0x7F00_0001, port }
}

fn pair() -> GatewayPair {
    GatewayPair::new(local(1680), local(1681))
}

#[test]
fn pair_starts_with_the_configured_bridges() {
    let pair = pair();
    assert_eq!(pair.bridge_a, None);
    assert_eq!(pair.bridge_b, None);
    assert_eq!(pair.bridge_addr(Side::A), local(1680));
    assert_eq!(pair.bridge_addr(Side::B), local(1681));
    assert_eq!(pair.next_token, FIRST_TOKEN);
    assert_eq!(FIRST_TOKEN, 0x1000);
    assert_eq!(KEEPALIVE_PERIOD_SECS, 10);
    assert_eq!(Side::A.eui(), EUI_A);
    assert_eq!(Side::B.eui(), EUI_B);
    assert_eq!(Side::A.other(), Side::B);
    assert_eq!(Side::B.other(), Side::A);
}

#[test]
fn push_data_is_relayed_to_the_other_bridge() {
    let mut pair = pair();
    let body = b"{\"rxpk\":[{\"freq\":902.3,\"data\":\"QA==\"}]}  ";
    let datagram = GwmpPacket::push_data(0x002A, &BRIDGE_EUI, body);
    match pair.receive(Side::A, local(5000), &datagram) {
        RelayAction::Relay { ack, forward } => {
            assert_eq!(ack, vec![0x02, 0x00, 0x2A, 0x01]);
            assert_eq!(forward.dest, local(1681));
            let mut expected = vec![0x02, 0x10, 0x00, 0x00];
            expected.extend_from_slice(&EUI_B);
            expected.extend_from_slice(body);
            assert_eq!(forward.datagram, expected);
        }
        other => panic!("expected a relay, got {:?}", other),
    }
    assert_eq!(pair.bridge_a, Some(local(5000)));
    assert_eq!(pair.bridge_b, None);
    assert_eq!(pair.next_token, 0x1001);

    // The other way round, to where bridge A was seen.
    match pair.receive(Side::B, local(6000), &datagram) {
        RelayAction::Relay { forward, .. } => {
            assert_eq!(forward.dest, local(5000));
            assert_eq!(&forward.datagram[..4], &[0x02, 0x10, 0x01, 0x00]);
            assert_eq!(&forward.datagram[4..12], &EUI_A);
            assert_eq!(&forward.datagram[12..], body);
        }
        other => panic!("expected a relay, got {:?}", other),
    }
    assert_eq!(pair.bridge_b, Some(local(6000)));
}

#[test]
fn relayed_body_need_not_be_text() {
    let mut pair = pair();
    let body = [0xFF, 0x00, 0xFE];
    let datagram = GwmpPacket::push_data(1, &BRIDGE_EUI, &body);
    match pair.receive(Side::B, local(1), &datagram) {
        RelayAction::Relay { forward, .. } => {
            assert_eq!(&forward.datagram[4..12], &EUI_A);
            assert_eq!(&forward.datagram[12..], &body);
        }
        other => panic!("expected a relay, got {:?}", other),
    }
}

#[test]
fn pull_data_is_acknowledged_and_remembered() {
    let mut pair = pair();
    let datagram = GwmpPacket::pull_data(0xBEEF, &BRIDGE_EUI);
    match pair.receive(Side::B, local(7000), &datagram) {
        RelayAction::Acknowledge { ack } => assert_eq!(ack, vec![0x02, 0xBE, 0xEF, 0x04]),
        other => panic!("expected an acknowledgement, got {:?}", other),
    }
    assert_eq!(pair.bridge_b, Some(local(7000)));
    assert_eq!(pair.bridge_addr(Side::B), local(7000));
    assert_eq!(pair.next_token, FIRST_TOKEN);
}

#[test]
fn pair_downlink_to_uplink() {
    let mut pair = pair();
    let request =
        "{\"txpk\":{\"freq\":903.9,\"datr\":\"SF10BW125\",\"codr\":\"4/5\",\"size\":5,\"data\":\"SGVsbG8=\"}}";
    let datagram = GwmpPacket::pull_resp(0x0707, request);
    let (body, tx_ack) = match pair.receive(Side::A, local(5000), &datagram) {
        RelayAction::Transmit { body, tx_ack } => (body, tx_ack),
        other => panic!("expected a transmission, got {:?}", other),
    };
    assert_eq!(body, request.as_bytes());
    // A PULL_RESP shows nothing of the bridge and takes no token.
    assert_eq!(pair.bridge_a, None);
    assert_eq!(pair.next_token, FIRST_TOKEN);

    let rxpk = txpk_to_rxpk(&RelayTxpk {
        freq: Some(Decimal { millionths: 903_900_000 }),
        datr: Some("SF10BW125".to_string()),
        codr: Some("4/5".to_string()),
        size: Some(5),
        data: Some("SGVsbG8=".to_string()),
    });
    assert_eq!(rxpk.freq.millionths as f64 / 1e6, 903.9);
    assert_eq!(rxpk.rssi.millionths as f64 / 1e6, -60.0);
    assert_eq!(rxpk.lsnr.map(|d| d.millionths as f64 / 1e6), Some(8.0));
    assert_eq!(rxpk.datr, "SF10BW125");
    assert_eq!(rxpk.codr.as_deref(), Some("4/5"));
    assert_eq!(rxpk.size, 5);
    assert_eq!(rxpk.data, "SGVsbG8=");
    assert_eq!(rxpk.modu.as_deref(), Some("LORA"));
    assert_eq!(rxpk.tmst, Some(0));
    assert_eq!(rxpk.time, None);
    assert_eq!(rxpk.tmms, None);
    assert_eq!(rxpk.chan, None);
    assert_eq!(rxpk.rfch, None);

    // Exactly one PUSH_DATA from B to the bridge of B.
    let uplink = b"{\"rxpk\":[{\"freq\":903.9}]}";
    let forward = pair.relay_uplink(Side::B, uplink);
    assert_eq!(forward.dest, local(1681));
    assert_eq!(forward.datagram, GwmpPacket::push_data(0x1000, &EUI_B, uplink));
    assert_eq!(pair.next_token, 0x1001);

    // And the success goes back to the bridge of A.
    assert_eq!(tx_ack, GwmpPacket::tx_ack(0x0707, &EUI_A));
    match GwmpPacket::parse(&tx_ack).unwrap() {
        GwmpPacket::TxAck { random_token, gateway_eui, json_payload } => {
            assert_eq!(random_token, 0x0707);
            assert_eq!(gateway_eui, EUI_A);
            assert_eq!(json_payload, None);
        }
        other => panic!("expected TX_ACK, got {:?}", other),
    }
}

#[test]
fn relayed_request_takes_defaults() {
    let rxpk =
        txpk_to_rxpk(&RelayTxpk { freq: None, datr: None, codr: None, size: None, data: None });
    assert_eq!(rxpk.freq.millionths as f64 / 1e6, 902.3);
    assert_eq!(rxpk.datr, "SF7BW125");
    assert_eq!(rxpk.codr.as_deref(), Some("4/5"));
    assert_eq!(rxpk.size, 0);
    assert_eq!(rxpk.data, "");
    assert_eq!(rxpk.rssi, Decimal { millionths: -60_000_000 });
    assert_eq!(rxpk.lsnr, Some(Decimal { millionths: 8_000_000 }));

    let rxpk = txpk_to_rxpk(&RelayTxpk {
        freq: None,
        datr: None,
        codr: Some("4/8".to_string()),
        size: Some(65536 + 7),
        data: None,
    });
    assert_eq!(rxpk.size, 7);
    assert_eq!(rxpk.codr.as_deref(), Some("4/8"));
}

#[test]
fn keepalive_goes_to_the_own_bridge() {
    let mut pair = pair();
    let ping = pair.keepalive(Side::A);
    assert_eq!(ping.dest, local(1680));
    assert_eq!(ping.datagram, GwmpPacket::pull_data(0x1000, &EUI_A));
    let ping = pair.keepalive(Side::B);
    assert_eq!(ping.dest, local(1681));
    assert_eq!(ping.datagram, GwmpPacket::pull_data(0x1001, &EUI_B));
    pair.note_bridge(Side::A, local(9));
    assert_eq!(pair.keepalive(Side::A).dest, local(9));
    assert_eq!(pair.next_token, 0x1003);
}

#[test]
fn tokens_wrap() {
    let mut pair = pair();
    pair.next_token = 0xFFFF;
    assert_eq!(pair.take_token(), 0xFFFF);
    assert_eq!(pair.take_token(), 0);
    assert_eq!(pair.take_token(), 1);
}

#[test]
fn acknowledgements_are_ignored_and_the_rest_dropped() {
    let mut pair = pair();
    let before = pair;
    assert!(matches!(
        pair.receive(Side::A, local(1), &GwmpPacket::push_ack(1)),
        RelayAction::Ignored
    ));
    assert!(matches!(
        pair.receive(Side::A, local(1), &GwmpPacket::pull_ack(1)),
        RelayAction::Ignored
    ));
    assert!(matches!(
        pair.receive(Side::A, local(1), &GwmpPacket::tx_ack(1, &BRIDGE_EUI)),
        RelayAction::Dropped(DropReason::UnexpectedTxAck)
    ));
    assert!(matches!(
        pair.receive(Side::A, local(1), &[2, 0, 0]),
        RelayAction::Dropped(DropReason::TooShort { len: 3 })
    ));
    assert!(matches!(
        pair.receive(Side::A, local(1), &[2, 0, 0, 0x2A]),
        RelayAction::Dropped(DropReason::UnknownKind { id: 0x2A })
    ));
    assert!(matches!(
        pair.receive(Side::A, local(1), &[2, 0, 0, 0, 1, 2, 3, 4, 5, 6, 7]),
        RelayAction::Dropped(DropReason::MissingGatewayEui { id: 0 })
    ));
    assert!(matches!(
        pair.receive(Side::A, local(1), &[2, 0, 0, 2]),
        RelayAction::Dropped(DropReason::MissingGatewayEui { id: 2 })
    ));
    assert_eq!(pair, before);
}

#[test]
fn the_version_byte_is_not_looked_at() {
    let mut pair = pair();
    let mut datagram = GwmpPacket::pull_data(5, &BRIDGE_EUI);
    datagram[0] = 0x01;
    assert!(matches!(
        pair.receive(Side::A, local(1), &datagram),
        RelayAction::Acknowledge { .. }
    ));
}
