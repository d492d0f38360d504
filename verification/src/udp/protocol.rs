//! The Semtech packet-forwarder protocol (GWMP): a four-byte header of
//! version, token and kind, then what the kind asks for.
//!
//! Every multi-byte number of the header is big-endian.

use vstd::prelude::*;
use vstd::utf8::{decode_utf8, encode_utf8, valid_utf8};
use crate::encoding::string_from_utf8;
use crate::lorawan::copy_range;

verus! {

/// Protocol version, the first byte of every datagram.
pub const PROTOCOL_VERSION: u8 = 0x02;

/// Length of the header: version, token and kind.
pub const HEADER_LEN: usize = 4;

/// Length of a gateway identifier.
pub const EUI_LEN: usize = 8;

/// Packet kinds, by their identifier byte.
#[derive(Debug, Clone, Copy, PartialEq, Eq, Structural)]
pub enum PacketType {
    PushData,
    PushAck,
    PullData,
    PullResp,
    PullAck,
    TxAck,
}

impl PacketType {
    /// The identifier byte of the kind.
    pub open spec fn id(self) -> u8 {
        match self {
            PacketType::PushData => 0x00,
            PacketType::PushAck => 0x01,
            PacketType::PullData => 0x02,
            PacketType::PullResp => 0x03,
            PacketType::PullAck => 0x04,
            PacketType::TxAck => 0x05,
        }
    }

    /// The kind with the given identifier byte, if there is one.
    pub open spec fn of_id(id: u8) -> Option<PacketType> {
        if id == 0x00 {
            Some(PacketType::PushData)
        } else if id == 0x01 {
            Some(PacketType::PushAck)
        } else if id == 0x02 {
            Some(PacketType::PullData)
        } else if id == 0x03 {
            Some(PacketType::PullResp)
        } else if id == 0x04 {
            Some(PacketType::PullAck)
        } else if id == 0x05 {
            Some(PacketType::TxAck)
        } else {
            None
        }
    }

    /// Whether packets of the kind carry a gateway identifier after the header.
    pub open spec fn has_gateway_eui(self) -> bool {
        self == PacketType::PushData || self == PacketType::PullData || self == PacketType::TxAck
    }

    /// The identifier byte of the kind.
    pub fn code(&self) -> (id: u8)
        ensures
            id == self.id(),
    {
        match self {
            PacketType::PushData => 0x00,
            PacketType::PushAck => 0x01,
            PacketType::PullData => 0x02,
            PacketType::PullResp => 0x03,
            PacketType::PullAck => 0x04,
            PacketType::TxAck => 0x05,
        }
    }

    /// The kind with the given identifier byte, if there is one.
    pub fn from_id(id: u8) -> (kind: Option<PacketType>)
        ensures
            kind == PacketType::of_id(id),
    {
        match id {
            0x00 => Some(PacketType::PushData),
            0x01 => Some(PacketType::PushAck),
            0x02 => Some(PacketType::PullData),
            0x03 => Some(PacketType::PullResp),
            0x04 => Some(PacketType::PullAck),
            0x05 => Some(PacketType::TxAck),
            _ => None,
        }
    }
}

/// Gateway identifier (EUI-64).
pub type GatewayEui = [u8; 8];

/// A parsed GWMP packet.
#[derive(Debug)]
pub enum GwmpPacket {
    PushData { random_token: u16, gateway_eui: GatewayEui, json_payload: String },
    PushAck { random_token: u16 },
    PullData { random_token: u16, gateway_eui: GatewayEui },
    PullResp { random_token: u16, json_payload: String },
    PullAck { random_token: u16 },
    TxAck { random_token: u16, gateway_eui: GatewayEui, json_payload: Option<String> },
}

/// What a packet holds, with identifiers and texts as sequences.
pub enum PacketModel {
    PushData { random_token: u16, gateway_eui: Seq<u8>, json_payload: Seq<char> },
    PushAck { random_token: u16 },
    PullData { random_token: u16, gateway_eui: Seq<u8> },
    PullResp { random_token: u16, json_payload: Seq<char> },
    PullAck { random_token: u16 },
    TxAck { random_token: u16, gateway_eui: Seq<u8>, json_payload: Option<Seq<char>> },
}

impl View for GwmpPacket {
    type V = PacketModel;

    open spec fn view(&self) -> PacketModel {
        match *self {
            GwmpPacket::PushData { random_token, gateway_eui, json_payload } => PacketModel::PushData {
                random_token,
                gateway_eui: gateway_eui@,
                json_payload: json_payload@,
            },
            GwmpPacket::PushAck { random_token } => PacketModel::PushAck { random_token },
            GwmpPacket::PullData { random_token, gateway_eui } => PacketModel::PullData {
                random_token,
                gateway_eui: gateway_eui@,
            },
            GwmpPacket::PullResp { random_token, json_payload } => PacketModel::PullResp {
                random_token,
                json_payload: json_payload@,
            },
            GwmpPacket::PullAck { random_token } => PacketModel::PullAck { random_token },
            GwmpPacket::TxAck { random_token, gateway_eui, json_payload } => PacketModel::TxAck {
                random_token,
                gateway_eui: gateway_eui@,
                json_payload: match json_payload {
                    Some(json) => Some(json@),
                    None => None,
                },
            },
        }
    }
}

impl PacketModel {
    /// The token of the packet.
    pub open spec fn token(self) -> u16 {
        match self {
            PacketModel::PushData { random_token, .. } => random_token,
            PacketModel::PushAck { random_token } => random_token,
            PacketModel::PullData { random_token, .. } => random_token,
            PacketModel::PullResp { random_token, .. } => random_token,
            PacketModel::PullAck { random_token } => random_token,
            PacketModel::TxAck { random_token, .. } => random_token,
        }
    }
}

/// A decimal number with six places, held as a whole number of millionths:
/// a frequency in MHz to the hertz, a signal strength in dBm, a
/// signal-to-noise ratio in dB.
#[derive(Debug, Clone, Copy, PartialEq, Eq, Structural, Hash)]
pub struct Decimal {
    pub millionths: i64,
}

impl Decimal {
    /// The decimal with the given number of millionths.
    pub fn from_millionths(millionths: i64) -> (value: Decimal)
        ensures
            value.millionths == millionths,
    {
        Decimal { millionths }
    }

    /// The decimal for a whole number.
    pub fn from_units(units: i32) -> (value: Decimal)
        ensures
            value.millionths == units * 1_000_000,
    {
        Decimal { millionths: (units as i64) * 1_000_000 }
    }
}

/// A packet that a gateway received, as its JSON describes it.
#[derive(Debug, Clone)]
pub struct Rxpk {
    /// UTC time of reception.
    pub time: Option<String>,
    /// Concentrator timestamp in microseconds.
    pub tmst: Option<u64>,
    /// GPS time in milliseconds.
    pub tmms: Option<u64>,
    /// Concentrator IF channel.
    pub chan: Option<u8>,
    /// Concentrator RF chain.
    pub rfch: Option<u8>,
    /// Frequency in MHz.
    pub freq: Decimal,
    /// Signal-to-noise ratio in dB.
    pub lsnr: Option<Decimal>,
    /// Signal strength in dBm.
    pub rssi: Decimal,
    /// Modulation, "LORA" or "FSK".
    pub modu: Option<String>,
    /// Data rate identifier, such as "SF7BW125".
    pub datr: String,
    /// Coding rate, such as "4/5".
    pub codr: Option<String>,
    /// Size of the PHY payload in bytes.
    pub size: u16,
    /// The PHY payload in base64.
    pub data: String,
}

/// The body of a PUSH_DATA datagram: received packets, a gateway status, or
/// both.
#[derive(Debug)]
pub struct PushDataPayload {
    pub rxpk: Option<Vec<Rxpk>>,
    pub stat: Option<serde_json::Value>,
}

/// A request to transmit a packet, as its JSON describes it.
#[derive(Debug, Clone)]
pub struct Txpk {
    /// Send at once.
    pub imme: Option<bool>,
    /// Send at this concentrator timestamp.
    pub tmst: Option<u64>,
    /// Frequency in MHz.
    pub freq: Decimal,
    /// Concentrator RF chain.
    pub rfch: Option<u8>,
    /// Output power in dBm.
    pub powe: Option<u8>,
    /// Modulation, "LORA" or "FSK".
    pub modu: Option<String>,
    /// Data rate identifier, such as "SF12BW500".
    pub datr: String,
    /// Coding rate, such as "4/5".
    pub codr: Option<String>,
    /// Inverted polarity, set for downlinks.
    pub ipol: Option<bool>,
    /// Size of the PHY payload in bytes.
    pub size: u16,
    /// The PHY payload in base64.
    pub data: String,
    /// No CRC on the physical layer, set for downlinks.
    pub ncrc: Option<bool>,
}

/// The body of a PULL_RESP datagram.
#[derive(Debug, Clone)]
pub struct PullRespPayload {
    pub txpk: Txpk,
}

/// Why a datagram is not a GWMP packet.
#[derive(Debug, Clone, Copy, PartialEq, Eq, Structural)]
pub enum ParseError {
    /// Fewer than the four bytes of the header.
    TooShort { len: usize },
    /// The first byte is not the protocol version.
    UnsupportedVersion { version: u8 },
    /// The kind byte names no packet kind.
    UnknownPacketType { id: u8 },
    /// The kind carries a gateway identifier, and fewer than eight bytes
    /// follow the header.
    MissingGatewayEui { packet_type: PacketType },
    /// The JSON body is not UTF-8.
    InvalidUtf8 { packet_type: PacketType },
}

/// The token of a datagram: bytes 1 and 2, big-endian.
pub open spec fn token_of(data: Seq<u8>) -> u16 {
    (0x100 * (data[1] as int) + data[2] as int) as u16
}

/// The header of a datagram with the given token and kind.
pub open spec fn header_bytes(token: u16, kind: PacketType) -> Seq<u8> {
    seq![PROTOCOL_VERSION, (token / 0x100) as u8, (token % 0x100) as u8, kind.id()]
}

/// A PUSH_ACK datagram.
pub open spec fn push_ack_bytes(token: u16) -> Seq<u8> {
    header_bytes(token, PacketType::PushAck)
}

/// A PULL_ACK datagram.
pub open spec fn pull_ack_bytes(token: u16) -> Seq<u8> {
    header_bytes(token, PacketType::PullAck)
}

/// A PULL_RESP datagram with the given body.
pub open spec fn pull_resp_bytes(token: u16, body: Seq<u8>) -> Seq<u8> {
    header_bytes(token, PacketType::PullResp) + body
}

/// A PUSH_DATA datagram of the given gateway with the given body.
pub open spec fn push_data_bytes(token: u16, gateway_eui: Seq<u8>, body: Seq<u8>) -> Seq<u8> {
    header_bytes(token, PacketType::PushData) + gateway_eui + body
}

/// A PULL_DATA datagram of the given gateway.
pub open spec fn pull_data_bytes(token: u16, gateway_eui: Seq<u8>) -> Seq<u8> {
    header_bytes(token, PacketType::PullData) + gateway_eui
}

/// A TX_ACK datagram of the given gateway, without a body.
pub open spec fn tx_ack_bytes(token: u16, gateway_eui: Seq<u8>) -> Seq<u8> {
    header_bytes(token, PacketType::TxAck) + gateway_eui
}

/// The packet of the given kind that a datagram with a sound header holds.
pub open spec fn parse_body_spec(kind: PacketType, data: Seq<u8>) -> Result<
    PacketModel,
    ParseError,
> {
    let random_token = token_of(data);
    let len = data.len() as int;
    if kind.has_gateway_eui() && len < HEADER_LEN + EUI_LEN {
        Err(ParseError::MissingGatewayEui { packet_type: kind })
    } else {
        let gateway_eui = data.subrange(4, 12);
        match kind {
            PacketType::PushAck => Ok(PacketModel::PushAck { random_token }),
            PacketType::PullAck => Ok(PacketModel::PullAck { random_token }),
            PacketType::PullData => Ok(PacketModel::PullData { random_token, gateway_eui }),
            PacketType::PushData => {
                let body = data.subrange(12, len);
                if valid_utf8(body) {
                    Ok(
                        PacketModel::PushData {
                            random_token,
                            gateway_eui,
                            json_payload: decode_utf8(body),
                        },
                    )
                } else {
                    Err(ParseError::InvalidUtf8 { packet_type: kind })
                }
            },
            PacketType::PullResp => {
                let body = data.subrange(4, len);
                if valid_utf8(body) {
                    Ok(PacketModel::PullResp { random_token, json_payload: decode_utf8(body) })
                } else {
                    Err(ParseError::InvalidUtf8 { packet_type: kind })
                }
            },
            PacketType::TxAck => {
                let body = data.subrange(12, len);
                if body.len() == 0 {
                    Ok(PacketModel::TxAck { random_token, gateway_eui, json_payload: None })
                } else if valid_utf8(body) {
                    Ok(
                        PacketModel::TxAck {
                            random_token,
                            gateway_eui,
                            json_payload: Some(decode_utf8(body)),
                        },
                    )
                } else {
                    Err(ParseError::InvalidUtf8 { packet_type: kind })
                }
            },
        }
    }
}

/// The packet that a datagram holds, or why it holds none. The checks come
/// in this order: length of the header, version, kind, length of the body,
/// encoding of the JSON text.
pub open spec fn parse_spec(data: Seq<u8>) -> Result<PacketModel, ParseError> {
    if data.len() < HEADER_LEN {
        Err(ParseError::TooShort { len: data.len() as usize })
    } else if data[0] != PROTOCOL_VERSION {
        Err(ParseError::UnsupportedVersion { version: data[0] })
    } else {
        match PacketType::of_id(data[3]) {
            None => Err(ParseError::UnknownPacketType { id: data[3] }),
            Some(kind) => parse_body_spec(kind, data),
        }
    }
}

/// Whether a parsing result is the one that the model gives.
pub open spec fn parses_as(
    result: Result<GwmpPacket, ParseError>,
    model: Result<PacketModel, ParseError>,
) -> bool {
    match result {
        Ok(packet) => model == Ok::<PacketModel, ParseError>(packet@),
        Err(e) => model == Err::<PacketModel, ParseError>(e),
    }
}

fn read_eui(data: &[u8]) -> (eui: GatewayEui)
    requires
        data.len() >= HEADER_LEN + EUI_LEN,
    ensures
        eui@ == data@.subrange(4, 12),
{
    let eui: GatewayEui = [
        data[4],
        data[5],
        data[6],
        data[7],
        data[8],
        data[9],
        data[10],
        data[11],
    ];
    assert(eui@ =~= data@.subrange(4, 12));
    eui
}

fn write_header(token: u16, kind: PacketType) -> (packet: Vec<u8>)
    ensures
        packet@ == header_bytes(token, kind),
{
    let mut packet: Vec<u8> = Vec::new();
    packet.push(PROTOCOL_VERSION);
    packet.push((token / 0x100) as u8);
    packet.push((token % 0x100) as u8);
    packet.push(kind.code());
    assert(packet@ =~= header_bytes(token, kind));
    packet
}

impl GwmpPacket {
    /// Parses a raw UDP datagram.
    pub fn parse(data: &[u8]) -> (result: Result<GwmpPacket, ParseError>)
        ensures
            parses_as(result, parse_spec(data@)),
    {
        if data.len() < HEADER_LEN {
            return Err(ParseError::TooShort { len: data.len() });
        }
        let version = data[0];
        if version != PROTOCOL_VERSION {
            return Err(ParseError::UnsupportedVersion { version });
        }
        let random_token: u16 = 0x100 * (data[1] as u16) + (data[2] as u16);
        let kind = match PacketType::from_id(data[3]) {
            Some(kind) => kind,
            None => {
                return Err(ParseError::UnknownPacketType { id: data[3] });
            },
        };
        match kind {
            PacketType::PushAck => Ok(GwmpPacket::PushAck { random_token }),
            PacketType::PullAck => Ok(GwmpPacket::PullAck { random_token }),
            PacketType::PullResp => {
                match string_from_utf8(copy_range(data, HEADER_LEN, data.len())) {
                    Some(json_payload) => Ok(GwmpPacket::PullResp { random_token, json_payload }),
                    None => Err(ParseError::InvalidUtf8 { packet_type: kind }),
                }
            },
            PacketType::PullData => {
                if data.len() < HEADER_LEN + EUI_LEN {
                    return Err(ParseError::MissingGatewayEui { packet_type: kind });
                }
                Ok(GwmpPacket::PullData { random_token, gateway_eui: read_eui(data) })
            },
            PacketType::PushData => {
                if data.len() < HEADER_LEN + EUI_LEN {
                    return Err(ParseError::MissingGatewayEui { packet_type: kind });
                }
                let gateway_eui = read_eui(data);
                match string_from_utf8(copy_range(data, HEADER_LEN + EUI_LEN, data.len())) {
                    Some(json_payload) => Ok(
                        GwmpPacket::PushData { random_token, gateway_eui, json_payload },
                    ),
                    None => Err(ParseError::InvalidUtf8 { packet_type: kind }),
                }
            },
            PacketType::TxAck => {
                if data.len() < HEADER_LEN + EUI_LEN {
                    return Err(ParseError::MissingGatewayEui { packet_type: kind });
                }
                let gateway_eui = read_eui(data);
                if data.len() == HEADER_LEN + EUI_LEN {
                    return Ok(GwmpPacket::TxAck { random_token, gateway_eui, json_payload: None });
                }
                match string_from_utf8(copy_range(data, HEADER_LEN + EUI_LEN, data.len())) {
                    Some(json) => Ok(
                        GwmpPacket::TxAck { random_token, gateway_eui, json_payload: Some(json) },
                    ),
                    None => Err(ParseError::InvalidUtf8 { packet_type: kind }),
                }
            },
        }
    }

    /// Builds a PUSH_ACK datagram.
    pub fn push_ack(random_token: u16) -> (packet: Vec<u8>)
        ensures
            packet@ == push_ack_bytes(random_token),
            packet@.len() == 4,
    {
        write_header(random_token, PacketType::PushAck)
    }

    /// Builds a PULL_ACK datagram.
    pub fn pull_ack(random_token: u16) -> (packet: Vec<u8>)
        ensures
            packet@ == pull_ack_bytes(random_token),
            packet@.len() == 4,
    {
        write_header(random_token, PacketType::PullAck)
    }

    /// Builds a PULL_RESP datagram around a JSON text.
    pub fn pull_resp(random_token: u16, json: &str) -> (packet: Vec<u8>)
        ensures
            packet@ == pull_resp_bytes(random_token, encode_utf8(json@)),
    {
        let mut packet = write_header(random_token, PacketType::PullResp);
        packet.extend_from_slice(json.as_bytes());
        packet
    }

    /// Builds a PUSH_DATA datagram of a gateway around a body, which goes
    /// out byte for byte.
    pub fn push_data(random_token: u16, gateway_eui: &GatewayEui, body: &[u8]) -> (packet: Vec<u8>)
        ensures
            packet@ == push_data_bytes(random_token, gateway_eui@, body@),
    {
        let mut packet = write_header(random_token, PacketType::PushData);
        packet.extend_from_slice(gateway_eui.as_slice());
        packet.extend_from_slice(body);
        packet
    }

    /// Builds a PULL_DATA datagram of a gateway.
    pub fn pull_data(random_token: u16, gateway_eui: &GatewayEui) -> (packet: Vec<u8>)
        ensures
            packet@ == pull_data_bytes(random_token, gateway_eui@),
    {
        let mut packet = write_header(random_token, PacketType::PullData);
        packet.extend_from_slice(gateway_eui.as_slice());
        packet
    }

    /// Builds a TX_ACK datagram of a gateway, without a body: the
    /// transmission went well.
    pub fn tx_ack(random_token: u16, gateway_eui: &GatewayEui) -> (packet: Vec<u8>)
        ensures
            packet@ == tx_ack_bytes(random_token, gateway_eui@),
    {
        let mut packet = write_header(random_token, PacketType::TxAck);
        packet.extend_from_slice(gateway_eui.as_slice());
        packet
    }
}

/// A PUSH_DATA datagram holds, after a header with its token and kind, the
/// gateway identifier and then the body, byte for byte.
pub proof fn lemma_push_data_layout(token: u16, gateway_eui: Seq<u8>, body: Seq<u8>)
    requires
        gateway_eui.len() == EUI_LEN,
    ensures
        ({
            let data = push_data_bytes(token, gateway_eui, body);
            &&& data.len() == HEADER_LEN + EUI_LEN + body.len()
            &&& data[0] == PROTOCOL_VERSION
            &&& token_of(data) == token
            &&& PacketType::of_id(data[3]) == Some(PacketType::PushData)
            &&& data.subrange(4, 12) == gateway_eui
            &&& data.subrange(12, data.len() as int) == body
        }),
{
    let data = push_data_bytes(token, gateway_eui, body);
    assert(data[1] == (token / 0x100) as u8);
    assert(data[2] == (token % 0x100) as u8);
    assert(data.subrange(4, 12) =~= gateway_eui);
    assert(data.subrange(12, data.len() as int) =~= body);
}

/// Parsing an acknowledgement gives back its kind and token.
pub proof fn lemma_parse_inverts_acks(token: u16)
    ensures
        parse_spec(push_ack_bytes(token)) == Ok::<PacketModel, ParseError>(
            PacketModel::PushAck { random_token: token },
        ),
        parse_spec(pull_ack_bytes(token)) == Ok::<PacketModel, ParseError>(
            PacketModel::PullAck { random_token: token },
        ),
{
    let push = push_ack_bytes(token);
    assert(push[1] == (token / 0x100) as u8 && push[2] == (token % 0x100) as u8);
    let pull = pull_ack_bytes(token);
    assert(pull[1] == (token / 0x100) as u8 && pull[2] == (token % 0x100) as u8);
}

/// Parsing a PUSH_DATA datagram built around a JSON text gives back token,
/// gateway identifier and text.
pub proof fn lemma_parse_inverts_push_data(token: u16, gateway_eui: Seq<u8>, json: Seq<char>)
    requires
        gateway_eui.len() == EUI_LEN,
    ensures
        parse_spec(push_data_bytes(token, gateway_eui, encode_utf8(json))) == Ok::<
            PacketModel,
            ParseError,
        >(PacketModel::PushData { random_token: token, gateway_eui, json_payload: json }),
{
    broadcast use vstd::utf8::encode_utf8_valid_utf8, vstd::utf8::encode_utf8_decode_utf8;

    lemma_push_data_layout(token, gateway_eui, encode_utf8(json));
}

/// Parsing a PULL_RESP datagram built around a JSON text gives back token
/// and text.
pub proof fn lemma_parse_inverts_pull_resp(token: u16, json: Seq<char>)
    ensures
        parse_spec(pull_resp_bytes(token, encode_utf8(json))) == Ok::<PacketModel, ParseError>(
            PacketModel::PullResp { random_token: token, json_payload: json },
        ),
{
    broadcast use vstd::utf8::encode_utf8_valid_utf8, vstd::utf8::encode_utf8_decode_utf8;

    let data = pull_resp_bytes(token, encode_utf8(json));
    assert(data[1] == (token / 0x100) as u8 && data[2] == (token % 0x100) as u8);
    assert(data[0] == PROTOCOL_VERSION && data[3] == 0x03u8);
    assert(data.subrange(4, data.len() as int) =~= encode_utf8(json));
}

/// Parsing a PULL_DATA or a TX_ACK datagram of a gateway gives back token
/// and gateway identifier; the TX_ACK has no body.
pub proof fn lemma_parse_inverts_gateway_datagrams(token: u16, gateway_eui: Seq<u8>)
    requires
        gateway_eui.len() == EUI_LEN,
    ensures
        parse_spec(pull_data_bytes(token, gateway_eui)) == Ok::<PacketModel, ParseError>(
            PacketModel::PullData { random_token: token, gateway_eui },
        ),
        parse_spec(tx_ack_bytes(token, gateway_eui)) == Ok::<PacketModel, ParseError>(
            PacketModel::TxAck { random_token: token, gateway_eui, json_payload: None },
        ),
{
    let pull = pull_data_bytes(token, gateway_eui);
    assert(pull[1] == (token / 0x100) as u8 && pull[2] == (token % 0x100) as u8);
    assert(pull[0] == PROTOCOL_VERSION && pull[3] == 0x02u8);
    assert(pull.subrange(4, 12) =~= gateway_eui);
    let ack = tx_ack_bytes(token, gateway_eui);
    assert(ack[1] == (token / 0x100) as u8 && ack[2] == (token % 0x100) as u8);
    assert(ack[0] == PROTOCOL_VERSION && ack[3] == 0x05u8);
    assert(ack.subrange(4, 12) =~= gateway_eui);
    assert(ack.subrange(12, ack.len() as int) =~= Seq::<u8>::empty());
}

} // verus!
