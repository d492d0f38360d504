//! The UDP server core: what to answer to each datagram of a gateway, where
//! the gateway is, and how downlinks reach it.
//!
//! Nothing here touches a socket. The server loop hands each datagram to
//! [`handle_datagram`], sends what comes back, and asks [`send_downlink`] for
//! the datagram of each downlink.

use vstd::prelude::*;
use vstd::utf8::encode_utf8;
use crate::encoding::{
    base64_bytes,
    base64_decode,
    hex_encode,
    hex_text,
    u32_to_upper_hex,
    upper_hex8,
};
use crate::json::{as_text, json_document, json_member, json_string, member, parse_json};
use crate::lorawan::{decode_phy_payload, decode_spec, FrameError, FrameModel, LoRaWANFrame};
use crate::urbit::types::{LoRaPacket, PacketSource, Timestamp};
use self::protocol::{
    parse_spec,
    pull_ack_bytes,
    pull_resp_bytes,
    push_ack_bytes,
    Decimal,
    GwmpPacket,
    PacketModel,
    ParseError,
    PushDataPayload,
    Rxpk,
    Txpk,
};

pub mod protocol;

verus! {

/// The longest datagram that UDP carries.
pub const MAX_DATAGRAM_LEN: usize = 65535;

/// The address of a peer on the network: an IP address and a port.
#[derive(Debug, Clone, Copy, PartialEq, Eq, Structural, Hash)]
pub enum PeerAddr {
    V4 { ip: u32, port: u16 },
    V6 { ip: u128, port: u16, flowinfo: u32, scope_id: u32 },
}

/// Where the gateway is: the source address of its latest PULL_DATA or
/// PUSH_DATA. Downlinks go there. At most one address is kept, and the
/// newest wins.
#[derive(Debug, Clone)]
pub struct GatewayTracker {
    current: Option<PeerAddr>,
}

impl GatewayTracker {
    /// The tracked address, if any datagram has shown one yet.
    pub closed spec fn address(&self) -> Option<PeerAddr> {
        self.current
    }

    /// A tracker that knows no gateway yet.
    pub fn new() -> (tracker: Self)
        ensures
            tracker.address().is_none(),
    {
        GatewayTracker { current: None }
    }

    /// Records the address of the gateway, and says whether it is news.
    pub fn set(&mut self, addr: PeerAddr) -> (changed: bool)
        ensures
            final(self).address() == Some(addr),
            changed == (old(self).address() != Some(addr)),
    {
        let changed = match self.current {
            Some(known) => known != addr,
            None => true,
        };
        self.current = Some(addr);
        changed
    }

    /// The tracked address, if any datagram has shown one yet.
    pub fn get(&self) -> (addr: Option<PeerAddr>)
        ensures
            addr == self.address(),
    {
        self.current
    }
}

/// What a gateway reports of a transmission.
#[derive(Debug, Clone)]
pub enum TxResult {
    /// The gateway sent the packet.
    Success,
    /// The gateway could not send it, and says why.
    Error(String),
}

/// What a transmission report holds, with the reason as a sequence.
pub enum TxOutcome {
    Success,
    Error(Seq<char>),
}

impl View for TxResult {
    type V = TxOutcome;

    open spec fn view(&self) -> TxOutcome {
        match self {
            TxResult::Success => TxOutcome::Success,
            TxResult::Error(reason) => TxOutcome::Error(reason@),
        }
    }
}

/// The characters of an optional text.
pub open spec fn text_of(text: Option<&str>) -> Option<Seq<char>> {
    match text {
        Some(t) => Some(t@),
        None => None,
    }
}

/// The characters of an optional string.
pub open spec fn string_of(text: Option<String>) -> Option<Seq<char>> {
    match text {
        Some(t) => Some(t@),
        None => None,
    }
}

/// The view of an optional transmission report.
pub open spec fn outcome_of(result: Option<TxResult>) -> Option<TxOutcome> {
    match result {
        Some(r) => Some(r@),
        None => None,
    }
}

/// What the error field of a transmission report means: no field, or the
/// text "NONE", is success; any other text is the reason of a failure.
pub open spec fn tx_outcome_of_error(error: Option<Seq<char>>) -> TxOutcome {
    match error {
        None => TxOutcome::Success,
        Some(reason) => if reason == "NONE"@ {
            TxOutcome::Success
        } else {
            TxOutcome::Error(reason)
        },
    }
}

/// The text of the member "error" of a JSON value, where it has one that is
/// a string.
pub open spec fn error_text_of(ack: serde_json::Value) -> Option<Seq<char>> {
    match json_member(ack, "error"@) {
        Some(error) => json_string(error),
        None => None,
    }
}

/// What the body of a TX_ACK means. No body is success. A body that is no
/// JSON document means nothing. A document without a member "txpk_ack" is
/// success; with one, its error field decides.
pub open spec fn tx_ack_outcome(body: Option<Seq<char>>) -> Option<TxOutcome> {
    match body {
        None => Some(TxOutcome::Success),
        Some(text) => match json_document(text) {
            None => None,
            Some(document) => match json_member(document, "txpk_ack"@) {
                None => Some(TxOutcome::Success),
                Some(ack) => Some(tx_outcome_of_error(error_text_of(ack))),
            },
        },
    }
}

impl TxResult {
    /// Reads a transmission report out of its error field.
    pub fn from_error(error: Option<&str>) -> (result: TxResult)
        ensures
            result@ == tx_outcome_of_error(text_of(error)),
    {
        match error {
            None => TxResult::Success,
            Some(reason) => {
                let reason = reason.to_owned();
                if reason == "NONE".to_owned() {
                    TxResult::Success
                } else {
                    TxResult::Error(reason)
                }
            },
        }
    }

    /// Reads a transmission report out of the body of a TX_ACK. `None` where
    /// the body is no JSON document.
    pub fn from_tx_ack(body: Option<&str>) -> (result: Option<TxResult>)
        ensures
            outcome_of(result) == tx_ack_outcome(text_of(body)),
    {
        let text = match body {
            None => {
                return Some(TxResult::Success);
            },
            Some(text) => text,
        };
        let document = match parse_json(text) {
            None => {
                return None;
            },
            Some(document) => document,
        };
        match member(&document, "txpk_ack") {
            None => Some(TxResult::Success),
            Some(ack) => {
                let error = match member(ack, "error") {
                    Some(error) => as_text(error),
                    None => None,
                };
                Some(TxResult::from_error(error))
            },
        }
    }
}

/// What the server does about a packet.
#[derive(Debug)]
pub enum Dispatch {
    /// A PUSH_DATA: send the acknowledgement to the source first, then read
    /// the received packets out of the JSON body.
    Uplink { ack: Vec<u8>, gateway_eui: String, json_payload: String },
    /// A PULL_DATA: send the acknowledgement to the source.
    Keepalive { ack: Vec<u8>, gateway_eui: String },
    /// A TX_ACK: report what the gateway says of the transmission, if its
    /// body can be read at all.
    TxReport { gateway_eui: String, result: Option<TxResult> },
    /// An acknowledgement or a PULL_RESP: nothing to do.
    Ignored,
}

/// What the server does about a packet, with texts and bytes as sequences.
pub enum DispatchModel {
    Uplink { ack: Seq<u8>, gateway_eui: Seq<char>, json_payload: Seq<char> },
    Keepalive { ack: Seq<u8>, gateway_eui: Seq<char> },
    TxReport { gateway_eui: Seq<char>, result: Option<TxOutcome> },
    Ignored,
}

impl View for Dispatch {
    type V = DispatchModel;

    open spec fn view(&self) -> DispatchModel {
        match self {
            Dispatch::Uplink { ack, gateway_eui, json_payload } => DispatchModel::Uplink {
                ack: ack@,
                gateway_eui: gateway_eui@,
                json_payload: json_payload@,
            },
            Dispatch::Keepalive { ack, gateway_eui } => DispatchModel::Keepalive {
                ack: ack@,
                gateway_eui: gateway_eui@,
            },
            Dispatch::TxReport { gateway_eui, result } => DispatchModel::TxReport {
                gateway_eui: gateway_eui@,
                result: outcome_of(*result),
            },
            Dispatch::Ignored => DispatchModel::Ignored,
        }
    }
}

/// Why a datagram is dropped.
#[derive(Debug, Clone, Copy, PartialEq, Eq, Structural)]
pub enum DatagramError {
    /// Longer than UDP carries.
    Oversize { len: usize },
    /// No GWMP packet.
    Malformed(ParseError),
}

/// The address that the server tracks after a packet from `src`: the source
/// of a PULL_DATA or PUSH_DATA, else the one it knew.
pub open spec fn tracked_after(known: Option<PeerAddr>, src: PeerAddr, packet: PacketModel) -> Option<
    PeerAddr,
> {
    match packet {
        PacketModel::PushData { .. } => Some(src),
        PacketModel::PullData { .. } => Some(src),
        _ => known,
    }
}

/// What the server does about a packet.
pub open spec fn dispatch_spec(packet: PacketModel) -> DispatchModel {
    match packet {
        PacketModel::PushData { random_token, gateway_eui, json_payload } => DispatchModel::Uplink {
            ack: push_ack_bytes(random_token),
            gateway_eui: hex_text(gateway_eui),
            json_payload,
        },
        PacketModel::PullData { random_token, gateway_eui } => DispatchModel::Keepalive {
            ack: pull_ack_bytes(random_token),
            gateway_eui: hex_text(gateway_eui),
        },
        PacketModel::TxAck { random_token, gateway_eui, json_payload } => DispatchModel::TxReport {
            gateway_eui: hex_text(gateway_eui),
            result: tx_ack_outcome(json_payload),
        },
        _ => DispatchModel::Ignored,
    }
}

/// What the server does about a datagram, or why it drops it.
pub open spec fn datagram_dispatch_spec(data: Seq<u8>) -> Result<DispatchModel, DatagramError> {
    if data.len() > MAX_DATAGRAM_LEN {
        Err(DatagramError::Oversize { len: data.len() as usize })
    } else {
        match parse_spec(data) {
            Err(e) => Err(DatagramError::Malformed(e)),
            Ok(packet) => Ok(dispatch_spec(packet)),
        }
    }
}

/// The address that the server tracks after a datagram from `src`. A
/// datagram that is dropped changes nothing.
pub open spec fn datagram_tracked_after(
    known: Option<PeerAddr>,
    src: PeerAddr,
    data: Seq<u8>,
) -> Option<PeerAddr> {
    if data.len() > MAX_DATAGRAM_LEN {
        known
    } else {
        match parse_spec(data) {
            Err(_) => known,
            Ok(packet) => tracked_after(known, src, packet),
        }
    }
}

/// Whether a dispatch result is the one that the model gives.
pub open spec fn dispatches_as(
    result: Result<Dispatch, DatagramError>,
    model: Result<DispatchModel, DatagramError>,
) -> bool {
    match result {
        Ok(dispatch) => model == Ok::<DispatchModel, DatagramError>(dispatch@),
        Err(e) => model == Err::<DispatchModel, DatagramError>(e),
    }
}

/// Decides what to do about a packet that came from `src`, and keeps track
/// of the gateway.
pub fn handle_packet(tracker: &mut GatewayTracker, src: PeerAddr, packet: GwmpPacket) -> (dispatch:
    Dispatch)
    ensures
        dispatch@ == dispatch_spec(packet@),
        final(tracker).address() == tracked_after(old(tracker).address(), src, packet@),
{
    match packet {
        GwmpPacket::PushData { random_token, gateway_eui, json_payload } => {
            let ack = GwmpPacket::push_ack(random_token);
            tracker.set(src);
            Dispatch::Uplink { ack, gateway_eui: hex_encode(gateway_eui.as_slice()), json_payload }
        },
        GwmpPacket::PullData { random_token, gateway_eui } => {
            tracker.set(src);
            let ack = GwmpPacket::pull_ack(random_token);
            Dispatch::Keepalive { ack, gateway_eui: hex_encode(gateway_eui.as_slice()) }
        },
        GwmpPacket::TxAck { random_token, gateway_eui, json_payload } => {
            let result = match &json_payload {
                Some(json) => TxResult::from_tx_ack(Some(json.as_str())),
                None => TxResult::from_tx_ack(None),
            };
            Dispatch::TxReport { gateway_eui: hex_encode(gateway_eui.as_slice()), result }
        },
        GwmpPacket::PushAck { .. } => Dispatch::Ignored,
        GwmpPacket::PullAck { .. } => Dispatch::Ignored,
        GwmpPacket::PullResp { .. } => Dispatch::Ignored,
    }
}

/// Decides what to do about a datagram that came from `src`: one step of
/// the receive loop. A datagram that is dropped leaves the tracker as it was.
pub fn handle_datagram(tracker: &mut GatewayTracker, src: PeerAddr, data: &[u8]) -> (result: Result<
    Dispatch,
    DatagramError,
>)
    ensures
        dispatches_as(result, datagram_dispatch_spec(data@)),
        final(tracker).address() == datagram_tracked_after(old(tracker).address(), src, data@),
{
    if data.len() > MAX_DATAGRAM_LEN {
        return Err(DatagramError::Oversize { len: data.len() });
    }
    match GwmpPacket::parse(data) {
        Err(e) => Err(DatagramError::Malformed(e)),
        Ok(packet) => Ok(handle_packet(tracker, src, packet)),
    }
}

/// A PUSH_DATA is acknowledged to its source with its own token: whatever
/// a datagram that parses as PUSH_DATA holds beyond that, the answer is the
/// four bytes of a PUSH_ACK that repeat the token bytes of the datagram.
pub proof fn lemma_push_data_acknowledged(data: Seq<u8>)
    requires
        data.len() <= MAX_DATAGRAM_LEN,
        parse_spec(data) matches Ok(PacketModel::PushData { .. }),
    ensures
        datagram_dispatch_spec(data) matches Ok(DispatchModel::Uplink { ack, .. }) && ack
            == push_ack_bytes(parse_spec(data).unwrap().token()) && ack.len() == 4 && ack
            == seq![0x02u8, data[1], data[2], 0x01u8],
{
    let token = parse_spec(data).unwrap().token();
    assert(token == protocol::token_of(data));
    assert(push_ack_bytes(token) =~= seq![0x02u8, data[1], data[2], 0x01u8]);
}

/// After a PULL_DATA or a PUSH_DATA from an address the tracker gives that
/// address, and every other packet leaves the tracked address as it is: the
/// tracker gives the source of the latest PULL_DATA or PUSH_DATA.
pub proof fn lemma_tracker_follows_gateway(
    known: Option<PeerAddr>,
    src: PeerAddr,
    packet: PacketModel,
)
    ensures
        (packet is PullData || packet is PushData) ==> tracked_after(known, src, packet) == Some(
            src,
        ),
        !(packet is PullData || packet is PushData) ==> tracked_after(known, src, packet) == known,
{
}

/// Whether a packet shows where the gateway is.
pub open spec fn shows_gateway(packet: PacketModel) -> bool {
    packet is PullData || packet is PushData
}

/// The address that the server tracks after a run of packets, each with
/// the address it came from.
pub open spec fn tracked_through(
    known: Option<PeerAddr>,
    packets: Seq<(PeerAddr, PacketModel)>,
) -> Option<PeerAddr>
    decreases packets.len(),
{
    if packets.len() == 0 {
        known
    } else {
        tracked_after(
            tracked_through(known, packets.drop_last()),
            packets.last().0,
            packets.last().1,
        )
    }
}

/// Once a PULL_DATA or PUSH_DATA has come from an address, the tracker gives
/// that address for as long as no other PULL_DATA or PUSH_DATA follows,
/// whatever else does and wherever from.
pub proof fn lemma_tracker_holds_until_overwritten(
    known: Option<PeerAddr>,
    addr: PeerAddr,
    first: PacketModel,
    later: Seq<(PeerAddr, PacketModel)>,
)
    requires
        shows_gateway(first),
        forall|i: int| 0 <= i < later.len() ==> !shows_gateway(#[trigger] later[i].1),
    ensures
        tracked_through(tracked_after(known, addr, first), later) == Some(addr),
    decreases later.len(),
{
    if later.len() > 0 {
        let before = later.drop_last();
        assert forall|i: int| 0 <= i < before.len() implies !shows_gateway(
            #[trigger] before[i].1,
        ) by {
            assert(before[i] == later[i]);
        }
        lemma_tracker_holds_until_overwritten(known, addr, first, before);
        assert(!shows_gateway(later[later.len() - 1].1));
    }
}

/// A downlink on its way: the datagram and where to send it.
#[derive(Debug)]
pub struct Downlink {
    pub dest: PeerAddr,
    pub datagram: Vec<u8>,
}

/// Why a downlink cannot be sent.
#[derive(Debug, Clone, Copy, PartialEq, Eq, Structural)]
pub enum DownlinkError {
    /// No datagram of a gateway has shown yet where it is.
    NoGatewayAddress,
}

/// The JSON body of a PULL_RESP around the JSON text of a transmit request.
pub open spec fn envelope_spec(txpk_json: Seq<char>) -> Seq<char> {
    "{\"txpk\":"@ + txpk_json + "}"@
}

/// The PULL_RESP datagram that carries a transmit request under a token.
pub open spec fn downlink_datagram(token: u16, txpk_json: Seq<char>) -> Seq<u8> {
    pull_resp_bytes(token, encode_utf8(envelope_spec(txpk_json)))
}

/// Where a downlink goes and what is sent, or why it cannot be sent.
pub open spec fn downlink_spec(known: Option<PeerAddr>, token: u16, txpk_json: Seq<char>) -> Result<
    (PeerAddr, Seq<u8>),
    DownlinkError,
> {
    match known {
        None => Err(DownlinkError::NoGatewayAddress),
        Some(dest) => Ok((dest, downlink_datagram(token, txpk_json))),
    }
}

/// Whether a downlink is the one that the model gives.
pub open spec fn downlink_is(
    result: Result<Downlink, DownlinkError>,
    model: Result<(PeerAddr, Seq<u8>), DownlinkError>,
) -> bool {
    match result {
        Ok(downlink) => model == Ok::<(PeerAddr, Seq<u8>), DownlinkError>(
            (downlink.dest, downlink.datagram@),
        ),
        Err(e) => model == Err::<(PeerAddr, Seq<u8>), DownlinkError>(e),
    }
}

/// Wraps the JSON text of a transmit request in the body of a PULL_RESP.
pub fn pull_resp_envelope(txpk_json: &str) -> (body: String)
    ensures
        body@ == envelope_spec(txpk_json@),
{
    let mut body = "{\"txpk\":".to_owned();
    body.append(txpk_json);
    body.append("}");
    body
}

/// `chrono::Utc::now`, as seconds since the epoch and nanoseconds into the
/// second. Nothing is promised of it.
#[verifier::external_body]
fn now() -> (at: Timestamp) {
    let at = chrono::Utc::now();
    Timestamp { secs: at.timestamp(), nanos: at.timestamp_subsec_nanos() }
}

/// A token for a datagram of one's own, drawn from the clock. Nothing is
/// promised of it: to the gateway a token is opaque.
fn rand_token() -> (token: u16) {
    let at = now();
    token_from_clock(at)
}

/// The token that a reading of the clock gives: the low 16 bits of its
/// nanoseconds.
pub open spec fn token_at(at: Timestamp) -> u16 {
    (at.nanos % 0x1_0000) as u16
}

/// Makes a token out of a reading of the clock.
pub fn token_from_clock(at: Timestamp) -> (token: u16)
    ensures
        token == token_at(at),
{
    (at.nanos % 0x1_0000) as u16
}

impl GatewayTracker {
    /// The PULL_RESP datagram for a transmit request under the given token,
    /// and the gateway address to send it to. Fails exactly where no gateway
    /// address is known.
    pub fn downlink(&self, token: u16, txpk_json: &str) -> (result: Result<Downlink, DownlinkError>)
        ensures
            downlink_is(result, downlink_spec(self.address(), token, txpk_json@)),
    {
        let dest = match self.current {
            None => {
                return Err(DownlinkError::NoGatewayAddress);
            },
            Some(dest) => dest,
        };
        let body = pull_resp_envelope(txpk_json);
        Ok(Downlink { dest, datagram: GwmpPacket::pull_resp(token, body.as_str()) })
    }
}

/// The PULL_RESP datagram for a transmit request, under a fresh token, and
/// the gateway address to send it to. Fails exactly where no gateway address
/// is known. The answer of the gateway is not awaited.
pub fn send_downlink(tracker: &GatewayTracker, txpk_json: &str) -> (result: Result<
    Downlink,
    DownlinkError,
>)
    ensures
        tracker.address().is_none() <==> result == Err::<Downlink, DownlinkError>(
            DownlinkError::NoGatewayAddress,
        ),
        result matches Ok(downlink) ==> tracker.address() == Some(downlink.dest) && exists|
            token: u16,
        |
            downlink.datagram@ == downlink_datagram(token, txpk_json@),
{
    if tracker.get().is_none() {
        return Err(DownlinkError::NoGatewayAddress);
    }
    let token = rand_token();
    tracker.downlink(token, txpk_json)
}

/// A downlink fails where the tracker is empty, whatever is to be sent; and
/// once a PULL_DATA has come from an address, it goes to that address as a
/// PULL_RESP with the request in its envelope.
pub proof fn lemma_downlink_needs_gateway(
    known: Option<PeerAddr>,
    src: PeerAddr,
    packet: PacketModel,
    token: u16,
    txpk_json: Seq<char>,
)
    ensures
        downlink_spec(None, token, txpk_json) == Err::<(PeerAddr, Seq<u8>), DownlinkError>(
            DownlinkError::NoGatewayAddress,
        ),
        packet is PullData ==> downlink_spec(
            tracked_after(known, src, packet),
            token,
            txpk_json,
        ) == Ok::<(PeerAddr, Seq<u8>), DownlinkError>((src, downlink_datagram(token, txpk_json))),
        parse_spec(downlink_datagram(token, txpk_json)) == Ok::<PacketModel, ParseError>(
            PacketModel::PullResp { random_token: token, json_payload: envelope_spec(txpk_json) },
        ),
{
    protocol::lemma_parse_inverts_pull_resp(token, envelope_spec(txpk_json));
}

/// The frequency of the second receive window, 923.3 MHz, in millionths of
/// a MHz.
pub const RX2_FREQ_MILLIONTHS: i64 = 923_300_000;

/// The transmit power of a downlink in dBm.
pub const DOWNLINK_POWER: u8 = 27;

/// Whether a transmit request is the one for a downlink with the given
/// payload: at once, on 923.3 MHz with SF12 at 500 kHz and 27 dBm, RF chain
/// 0, inverted polarity and no CRC.
pub open spec fn is_downlink_txpk(txpk: Txpk, payload_b64: Seq<char>, payload_size: u16) -> bool {
    &&& txpk.imme == Some(true)
    &&& txpk.tmst.is_none()
    &&& txpk.freq.millionths == RX2_FREQ_MILLIONTHS
    &&& txpk.rfch == Some(0u8)
    &&& txpk.powe == Some(DOWNLINK_POWER)
    &&& string_of(txpk.modu) == Some("LORA"@)
    &&& txpk.datr@ == "SF12BW500"@
    &&& string_of(txpk.codr) == Some("4/5"@)
    &&& txpk.ipol == Some(true)
    &&& txpk.size == payload_size
    &&& txpk.data@ == payload_b64
    &&& txpk.ncrc == Some(true)
}

/// The transmit request for a downlink with the given payload, in base64,
/// and its size in bytes.
pub fn build_txpk(payload_b64: &str, payload_size: u16) -> (txpk: Txpk)
    ensures
        is_downlink_txpk(txpk, payload_b64@, payload_size),
{
    Txpk {
        imme: Some(true),
        tmst: None,
        freq: Decimal::from_millionths(RX2_FREQ_MILLIONTHS),
        rfch: Some(0),
        powe: Some(DOWNLINK_POWER),
        modu: Some("LORA".to_owned()),
        datr: "SF12BW500".to_owned(),
        codr: Some("4/5".to_owned()),
        ipol: Some(true),
        size: payload_size,
        data: payload_b64.to_owned(),
        ncrc: Some(true),
    }
}

/// Whether a packet is the uplink that a data frame makes, received by the
/// given gateway with the given metadata at the given time.
pub open spec fn is_uplink_of(
    packet: LoRaPacket,
    frame: FrameModel,
    rxpk: Rxpk,
    gateway_eui: Seq<char>,
    received_at: Timestamp,
) -> bool {
    match frame {
        FrameModel::Data { mtype, dev_addr, fcnt, f_port, frm_payload, .. } => {
            &&& packet.dev_addr@ == upper_hex8(dev_addr)
            &&& packet.fcnt == fcnt
            &&& packet.f_port == f_port
            &&& packet.payload@ == hex_text(frm_payload)
            &&& packet.rssi == rxpk.rssi
            &&& packet.snr == rxpk.lsnr
            &&& packet.freq == rxpk.freq
            &&& packet.data_rate@ == rxpk.datr@
            &&& packet.gateway_eui@ == gateway_eui
            &&& packet.received_at == received_at
            &&& packet.mtype@ == mtype.spec_name()
            &&& packet.source == PacketSource::Local
        },
        _ => false,
    }
}

/// Whether `result` is what a frame gives upstream: the uplink of a data
/// frame, and nothing for any other frame.
pub open spec fn is_forward_of(
    result: Option<LoRaPacket>,
    frame: FrameModel,
    rxpk: Rxpk,
    gateway_eui: Seq<char>,
    received_at: Timestamp,
) -> bool {
    match result {
        Some(packet) => is_uplink_of(packet, frame, rxpk, gateway_eui, received_at),
        None => !(frame is Data),
    }
}

/// Makes the uplink of a decoded frame and the metadata of its reception.
/// Only data frames go upstream.
pub fn frame_to_lora_packet(
    frame: &LoRaWANFrame,
    rxpk: &Rxpk,
    gateway_eui: &str,
    received_at: Timestamp,
) -> (result: Option<LoRaPacket>)
    ensures
        is_forward_of(result, frame@, *rxpk, gateway_eui@, received_at),
{
    match frame {
        LoRaWANFrame::Data { mtype, dev_addr, fcnt, f_port, frm_payload, .. } => Some(
            LoRaPacket {
                dev_addr: u32_to_upper_hex(*dev_addr),
                fcnt: *fcnt,
                f_port: *f_port,
                payload: hex_encode(frm_payload.as_slice()),
                rssi: rxpk.rssi,
                snr: rxpk.lsnr,
                freq: rxpk.freq,
                data_rate: rxpk.datr.clone(),
                gateway_eui: gateway_eui.to_owned(),
                received_at,
                mtype: mtype.name(),
                source: PacketSource::Local,
            },
        ),
        _ => None,
    }
}

/// Why a received packet gives no uplink.
#[derive(Debug, Clone, Copy, PartialEq, Eq, Structural)]
pub enum UplinkError {
    /// The data field is no base64.
    Base64,
    /// The PHY payload is no LoRaWAN frame.
    Frame(FrameError),
}

/// What a received packet gives upstream once its data field is decoded
/// from base64, `phy` being the outcome of that.
pub open spec fn is_uplink_result(
    result: Result<Option<LoRaPacket>, UplinkError>,
    phy: Option<Seq<u8>>,
    rxpk: Rxpk,
    gateway_eui: Seq<char>,
    received_at: Timestamp,
) -> bool {
    match phy {
        None => result == Err::<Option<LoRaPacket>, UplinkError>(UplinkError::Base64),
        Some(bytes) => match decode_spec(bytes) {
            Err(e) => result == Err::<Option<LoRaPacket>, UplinkError>(UplinkError::Frame(e)),
            Ok(frame) => result matches Ok(forward) && is_forward_of(
                forward,
                frame,
                rxpk,
                gateway_eui,
                received_at,
            ),
        },
    }
}

/// Decodes the PHY payload of a received packet and makes its uplink.
pub fn uplink_from_phy(phy: &[u8], rxpk: &Rxpk, gateway_eui: &str, received_at: Timestamp) -> (result:
    Result<Option<LoRaPacket>, UplinkError>)
    ensures
        is_uplink_result(result, Some(phy@), *rxpk, gateway_eui@, received_at),
{
    match decode_phy_payload(phy) {
        Err(e) => Err(UplinkError::Frame(e)),
        Ok(frame) => Ok(frame_to_lora_packet(&frame, rxpk, gateway_eui, received_at)),
    }
}

/// Decodes a received packet, base64 and frame, and makes its uplink as
/// received at the given time.
pub fn uplink_from_rxpk(rxpk: &Rxpk, gateway_eui: &str, received_at: Timestamp) -> (result: Result<
    Option<LoRaPacket>,
    UplinkError,
>)
    ensures
        is_uplink_result(result, base64_bytes(rxpk.data@), *rxpk, gateway_eui@, received_at),
{
    match base64_decode(rxpk.data.as_str()) {
        Err(_) => Err(UplinkError::Base64),
        Ok(phy) => uplink_from_phy(phy.as_slice(), rxpk, gateway_eui, received_at),
    }
}

/// Whether `result` is what a received packet gives upstream, received at
/// some time or other.
pub open spec fn is_received(
    result: Result<Option<LoRaPacket>, UplinkError>,
    rxpk: Rxpk,
    gateway_eui: Seq<char>,
) -> bool {
    exists|received_at: Timestamp|
        is_uplink_result(result, base64_bytes(rxpk.data@), rxpk, gateway_eui, received_at)
}

/// Decodes a received packet and makes its uplink, received now.
pub fn receive_rxpk(rxpk: &Rxpk, gateway_eui: &str) -> (result: Result<
    Option<LoRaPacket>,
    UplinkError,
>)
    ensures
        is_received(result, *rxpk, gateway_eui@),
{
    let received_at = now();
    uplink_from_rxpk(rxpk, gateway_eui, received_at)
}

/// The received packets of a PUSH_DATA body, in the order of the body.
pub open spec fn rxpks_of(payload: PushDataPayload) -> Seq<Rxpk> {
    match payload.rxpk {
        Some(rxpks) => rxpks@,
        None => Seq::empty(),
    }
}

/// Decodes the received packets of a PUSH_DATA body, each received now.
/// There is one outcome for each packet, in the order of the body; a packet
/// that cannot be decoded does not stand in the way of the next.
pub fn receive_push_data(payload: &PushDataPayload, gateway_eui: &str) -> (outcomes: Vec<
    Result<Option<LoRaPacket>, UplinkError>,
>)
    ensures
        outcomes@.len() == rxpks_of(*payload).len(),
        forall|i: int|
            0 <= i < outcomes@.len() ==> is_received(
                #[trigger] outcomes@[i],
                rxpks_of(*payload)[i],
                gateway_eui@,
            ),
{
    let mut outcomes: Vec<Result<Option<LoRaPacket>, UplinkError>> = Vec::new();
    let rxpks = match &payload.rxpk {
        None => {
            return outcomes;
        },
        Some(rxpks) => rxpks,
    };
    let mut i: usize = 0;
    while i < rxpks.len()
        invariant
            i <= rxpks@.len(),
            rxpks@ == rxpks_of(*payload),
            outcomes@.len() == i,
            forall|j: int|
                0 <= j < i ==> is_received(#[trigger] outcomes@[j], rxpks@[j], gateway_eui@),
        decreases rxpks@.len() - i,
    {
        let ghost before = outcomes@;
        let outcome = receive_rxpk(&rxpks[i], gateway_eui);
        outcomes.push(outcome);
        proof {
            assert forall|j: int| 0 <= j < i + 1 implies is_received(
                #[trigger] outcomes@[j],
                rxpks@[j],
                gateway_eui@,
            ) by {
                if j < i {
                    assert(outcomes@[j] == before[j]);
                }
            }
        }
        i += 1;
    }
    outcomes
}

/// Whether the size that a received packet states is the length of its PHY
/// payload.
pub open spec fn size_matches(rxpk: Rxpk) -> bool {
    base64_bytes(rxpk.data@) matches Some(phy) && phy.len() == rxpk.size
}

/// Says whether the size that a received packet states is the length of
/// its PHY payload. A data field that is no base64 matches no size.
pub fn rxpk_size_matches(rxpk: &Rxpk) -> (matches: bool)
    ensures
        matches == size_matches(*rxpk),
{
    match base64_decode(rxpk.data.as_str()) {
        Err(_) => false,
        Ok(phy) => phy.len() == rxpk.size as usize,
    }
}

} // verus!
