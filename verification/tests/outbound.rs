use base64::Engine;
use lora_urbit::outbound::{
    frame_header_addr, prepare_downlink, transmit_report, DownlinkCounter, OutboxError,
    DOWNLINK_FPORT, POLL_PERIOD_SECS,
};
use lora_urbit::udp::protocol::{Decimal, GwmpPacket};
use lora_urbit::udp::{handle_datagram, send_downlink, GatewayTracker, PeerAddr};
use lora_urbit::urbit::types::{OutboundMessage, TxAck};

fn message(id: u64, dest_addr: &str, payload: &str, src_addr: Option<&str>) -> OutboundMessage {
    OutboundMessage {
        id,
        dest_ship: "~bus".to_string(),
        dest_addr: dest_addr.to_string(),
        payload: payload.to_string(),
        queued_at: "~2026.2.18..17.30.00".to_string(),
        src_addr: src_addr.map(|s| s.to_string()),
    }
}

fn frame_of(data: &str) -> Vec<u8> {
    base64::engine::general_purpose::STANDARD.decode(data).unwrap()
}

#[test]
fn outbox_dispatch() {
    let msg = message(7, "DEADBEEF", "01020304", None);
    let mut counter = DownlinkCounter::new();
    let txpk = counter.dispatch(&msg).unwrap();
    assert_eq!(
        frame_of(&txpk.data),
        vec![
            0x60, 0xEF, 0xBE, 0xAD, 0xDE, 0x00, 0x00, 0x00, 0x01, 0x01, 0x02, 0x03, 0x04, 0x00,
            0x00, 0x00, 0x00
        ]
    );
    assert_eq!(txpk.size, 17);
    assert_eq!(txpk.imme, Some(true));
    assert_eq!(txpk.freq, Decimal { millionths: 923_300_000 });
    assert_eq!(txpk.powe, Some(27));
    assert_eq!(txpk.modu.as_deref(), Some("LORA"));
    assert_eq!(txpk.datr, "SF12BW500");
    assert_eq!(txpk.codr.as_deref(), Some("4/5"));
    assert_eq!(txpk.ipol, Some(true));
    assert_eq!(txpk.ncrc, Some(true));
    assert_eq!(counter.fcnt, 1);

    // One PULL_RESP to the tracked gateway, then the report.
    let eui = [1u8, 2, 3, 4, 5, 6, 7, 8];
    let gateway = PeerAddr::V4 { ip: 0x0A00_0001, port: 1700 };
    let mut tracker = GatewayTracker::new();
    handle_datagram(&mut tracker, gateway, &GwmpPacket::pull_data(9, &eui)).unwrap();
    let json = format!("{{\"data\":\"{}\",\"size\":{}}}", txpk.data, txpk.size);
    let downlink = send_downlink(&tracker, &json).unwrap();
    assert_eq!(downlink.dest, gateway);
    match GwmpPacket::parse(&downlink.datagram).unwrap() {
        GwmpPacket::PullResp { json_payload, .. } => {
            assert_eq!(json_payload, format!("{{\"txpk\":{}}}", json))
        }
        other => panic!("expected PULL_RESP, got {:?}", other),
    }
    let report: TxAck = transmit_report(msg.id, true);
    assert_eq!(report.action, "tx-ack");
    assert_eq!(report.msg_id, 7);
}

#[test]
fn reports_name_the_message() {
    let ok = TxAck::success(7);
    assert_eq!((ok.action.as_str(), ok.msg_id), ("tx-ack", 7));
    let failed = TxAck::failure(u64::MAX);
    assert_eq!((failed.action.as_str(), failed.msg_id), ("tx-fail", u64::MAX));
    let failed = transmit_report(3, false);
    assert_eq!((failed.action.as_str(), failed.msg_id), ("tx-fail", 3));
}

#[test]
fn frame_counter_goes_up_by_one_and_wraps() {
    let msg = message(1, "01AB5678", "ff", None);
    let mut counter = DownlinkCounter::new();
    assert_eq!(counter.fcnt, 0);
    for expected in 0u16..5 {
        let txpk = counter.dispatch(&msg).unwrap();
        let frame = frame_of(&txpk.data);
        assert_eq!(&frame[6..8], &expected.to_le_bytes());
        assert_eq!(counter.fcnt, expected + 1);
    }
    counter.fcnt = 0xFFFE;
    counter.dispatch(&msg).unwrap();
    assert_eq!(counter.fcnt, 0xFFFF);
    let txpk = counter.dispatch(&msg).unwrap();
    assert_eq!(&frame_of(&txpk.data)[6..8], &[0xFF, 0xFF]);
    assert_eq!(counter.fcnt, 0);
    counter.dispatch(&msg).unwrap();
    assert_eq!(counter.fcnt, 1);
}

#[test]
fn messages_that_fail_leave_the_counter() {
    let mut counter = DownlinkCounter { fcnt: 41 };
    for (addr, payload, error) in [
        ("", "00", OutboxError::InvalidDevAddr),
        ("XYZ", "00", OutboxError::InvalidDevAddr),
        ("123456789", "00", OutboxError::InvalidDevAddr),
        ("12 34", "00", OutboxError::InvalidDevAddr),
        ("-1", "00", OutboxError::InvalidDevAddr),
        ("+", "00", OutboxError::InvalidDevAddr),
        ("0x10", "00", OutboxError::InvalidDevAddr),
        // The address is looked at first.
        ("XYZ", "0", OutboxError::InvalidDevAddr),
        ("01AB5678", "0", OutboxError::InvalidPayloadHex),
        ("01AB5678", "0g", OutboxError::InvalidPayloadHex),
        ("01AB5678", "00 ", OutboxError::InvalidPayloadHex),
        ("01AB5678", "éé", OutboxError::InvalidPayloadHex),
        ("01AB5678", "+1", OutboxError::InvalidPayloadHex),
    ] {
        let msg = message(1, addr, payload, None);
        assert_eq!(counter.dispatch(&msg).unwrap_err(), error, "{:?} {:?}", addr, payload);
        assert_eq!(counter.fcnt, 41);
    }
    assert!(counter.dispatch(&message(1, "01AB5678", "00", None)).is_ok());
    assert_eq!(counter.fcnt, 42);
}

#[test]
fn address_forms_that_are_taken() {
    for (addr, value) in [
        ("0", 0u32),
        ("ff", 0xFF),
        ("FFFFFFFF", 0xFFFF_FFFF),
        ("deadBEEF", 0xDEAD_BEEF),
        ("+1a", 0x1A),
        ("000000000012", 0x12),
    ] {
        let txpk = prepare_downlink(&message(1, addr, "", None), 3).unwrap();
        let frame = frame_of(&txpk.data);
        assert_eq!(&frame[1..5], &value.to_le_bytes(), "{:?}", addr);
    }
}

#[test]
fn sender_address_goes_into_the_header() {
    let from_sender = message(1, "DEADBEEF", "01", Some("01AB5678"));
    assert_eq!(frame_header_addr(&from_sender), "01AB5678");
    let frame = frame_of(&prepare_downlink(&from_sender, 0).unwrap().data);
    assert_eq!(&frame[1..5], &[0x78, 0x56, 0xAB, 0x01]);

    let empty_sender = message(1, "DEADBEEF", "01", Some(""));
    assert_eq!(frame_header_addr(&empty_sender), "DEADBEEF");
    let frame = frame_of(&prepare_downlink(&empty_sender, 0).unwrap().data);
    assert_eq!(&frame[1..5], &[0xEF, 0xBE, 0xAD, 0xDE]);

    let no_sender = message(1, "DEADBEEF", "01", None);
    assert_eq!(frame_header_addr(&no_sender), "DEADBEEF");

    // A sender that is given decides alone, a bad one too.
    let bad_sender = message(1, "DEADBEEF", "01", Some("nope"));
    assert_eq!(prepare_downlink(&bad_sender, 0).unwrap_err(), OutboxError::InvalidDevAddr);
}

#[test]
fn payload_in_either_case_and_empty() {
    let txpk = prepare_downlink(&message(1, "1", "aBcDeF09", None), 0x0102).unwrap();
    assert_eq!(
        frame_of(&txpk.data),
        vec![0x60, 1, 0, 0, 0, 0, 0x02, 0x01, DOWNLINK_FPORT, 0xAB, 0xCD, 0xEF, 0x09, 0, 0, 0, 0]
    );
    assert_eq!(txpk.size, 17);
    assert_eq!(txpk.data, "YAEAAAAAAgEBq83vCQAAAAA=");

    let txpk = prepare_downlink(&message(1, "1", "", None), 0).unwrap();
    assert_eq!(frame_of(&txpk.data), vec![0x60, 1, 0, 0, 0, 0, 0, 0, 0, 0, 0, 0]);
    assert_eq!(txpk.size, 12);
}

#[test]
fn size_keeps_its_low_sixteen_bits() {
    // 65523 bytes of payload make a frame of 65536 bytes.
    let payload = "00".repeat(65523);
    let txpk = prepare_downlink(&message(1, "1", &payload, None), 0).unwrap();
    assert_eq!(frame_of(&txpk.data).len(), 65536);
    assert_eq!(txpk.size, 0);
    let payload = "00".repeat(65522);
    let txpk = prepare_downlink(&message(1, "1", &payload, None), 0).unwrap();
    assert_eq!(txpk.size, 65535);
}

#[test]
fn outbox_is_polled_every_two_seconds() {
    assert_eq!(POLL_PERIOD_SECS, 2);
    assert_eq!(DOWNLINK_FPORT, 1);
}
