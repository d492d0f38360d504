//! LoRaWAN PHY payloads: the MAC message types and the frame decoder.
//!
//! Every multi-byte field of a frame is little-endian on the wire.

use vstd::prelude::*;
use crate::encoding::{
    decimal_text,
    u32_to_upper_hex,
    u64_to_decimal,
    u64_to_upper_hex,
    upper_hex16,
    upper_hex8,
};

pub mod encoder;
pub mod keys;

verus! {

/// Message type, the top three bits of the MAC header.
#[derive(Debug, Clone, Copy, PartialEq, Eq, Structural)]
pub enum MType {
    JoinRequest,
    JoinAccept,
    UnconfirmedDataUp,
    UnconfirmedDataDown,
    ConfirmedDataUp,
    ConfirmedDataDown,
    RejoinRequest,
    Proprietary,
}

/// The message-type bits of a MAC header, as a number in `0..8`.
pub open spec fn mtype_bits(mhdr: u8) -> u8 {
    (mhdr >> 5) & 0x07
}

impl MType {
    /// The message type that a MAC header selects.
    pub open spec fn of_mhdr(mhdr: u8) -> MType {
        let bits = mtype_bits(mhdr);
        if bits == 0 {
            MType::JoinRequest
        } else if bits == 1 {
            MType::JoinAccept
        } else if bits == 2 {
            MType::UnconfirmedDataUp
        } else if bits == 3 {
            MType::UnconfirmedDataDown
        } else if bits == 4 {
            MType::ConfirmedDataUp
        } else if bits == 5 {
            MType::ConfirmedDataDown
        } else if bits == 6 {
            MType::RejoinRequest
        } else {
            MType::Proprietary
        }
    }

    /// Whether frames of this type carry the data-frame layout.
    pub open spec fn is_data(self) -> bool {
        self == MType::UnconfirmedDataUp || self == MType::UnconfirmedDataDown
            || self == MType::ConfirmedDataUp || self == MType::ConfirmedDataDown
    }

    /// The name of the message type as it is reported upstream.
    pub open spec fn spec_name(self) -> Seq<char> {
        match self {
            MType::JoinRequest => "JoinRequest"@,
            MType::JoinAccept => "JoinAccept"@,
            MType::UnconfirmedDataUp => "UnconfirmedDataUp"@,
            MType::UnconfirmedDataDown => "UnconfirmedDataDown"@,
            MType::ConfirmedDataUp => "ConfirmedDataUp"@,
            MType::ConfirmedDataDown => "ConfirmedDataDown"@,
            MType::RejoinRequest => "RejoinRequest"@,
            MType::Proprietary => "Proprietary"@,
        }
    }

    /// Reads the message type out of a MAC header. Every header selects one.
    pub fn from_mhdr(mhdr: u8) -> (mtype: MType)
        ensures
            mtype == MType::of_mhdr(mhdr),
    {
        let bits: u8 = (mhdr >> 5) & 0x07;
        assert(bits < 8) by (bit_vector)
            requires
                bits == (mhdr >> 5) & 0x07,
        ;
        if bits == 0 {
            MType::JoinRequest
        } else if bits == 1 {
            MType::JoinAccept
        } else if bits == 2 {
            MType::UnconfirmedDataUp
        } else if bits == 3 {
            MType::UnconfirmedDataDown
        } else if bits == 4 {
            MType::ConfirmedDataUp
        } else if bits == 5 {
            MType::ConfirmedDataDown
        } else if bits == 6 {
            MType::RejoinRequest
        } else {
            MType::Proprietary
        }
    }

    /// Whether frames of this type carry the data-frame layout.
    pub fn carries_data(&self) -> (data: bool)
        ensures
            data == self.is_data(),
    {
        match self {
            MType::UnconfirmedDataUp => true,
            MType::UnconfirmedDataDown => true,
            MType::ConfirmedDataUp => true,
            MType::ConfirmedDataDown => true,
            _ => false,
        }
    }

    /// The name of the message type as it is reported upstream.
    pub fn name(&self) -> (name: String)
        ensures
            name@ == self.spec_name(),
    {
        match self {
            MType::JoinRequest => "JoinRequest".to_owned(),
            MType::JoinAccept => "JoinAccept".to_owned(),
            MType::UnconfirmedDataUp => "UnconfirmedDataUp".to_owned(),
            MType::UnconfirmedDataDown => "UnconfirmedDataDown".to_owned(),
            MType::ConfirmedDataUp => "ConfirmedDataUp".to_owned(),
            MType::ConfirmedDataDown => "ConfirmedDataDown".to_owned(),
            MType::RejoinRequest => "RejoinRequest".to_owned(),
            MType::Proprietary => "Proprietary".to_owned(),
        }
    }
}

/// LoRaWAN major version, the bottom two bits of the MAC header.
#[derive(Debug, Clone, Copy)]
pub enum Major {
    LoRaWANR1,
    Unknown(u8),
}

impl Major {
    /// The major version that a MAC header selects.
    pub open spec fn of_mhdr(mhdr: u8) -> Major {
        if mhdr & 0x03 == 0 {
            Major::LoRaWANR1
        } else {
            Major::Unknown(mhdr & 0x03)
        }
    }

    /// Reads the major version out of a MAC header.
    pub fn from_mhdr(mhdr: u8) -> (major: Major)
        ensures
            major == Major::of_mhdr(mhdr),
    {
        let bits: u8 = mhdr & 0x03;
        if bits == 0 {
            Major::LoRaWANR1
        } else {
            Major::Unknown(bits)
        }
    }
}

/// Frame control byte of a data frame.
#[derive(Debug, Clone, Copy, PartialEq, Eq, Structural)]
pub struct FCtrl {
    pub adr: bool,
    pub adr_ack_req: bool,
    pub ack: bool,
    pub class_b: bool,
    pub f_opts_len: u8,
}

impl FCtrl {
    /// The frame control fields that a byte encodes: bit 7 is ADR, bit 6 the
    /// ADR acknowledgement request, bit 5 ACK, bit 4 class B, and the low four
    /// bits the length of the frame options.
    pub open spec fn of_byte(byte: u8) -> FCtrl {
        FCtrl {
            adr: byte & 0x80 != 0,
            adr_ack_req: byte & 0x40 != 0,
            ack: byte & 0x20 != 0,
            class_b: byte & 0x10 != 0,
            f_opts_len: byte & 0x0F,
        }
    }

    /// Reads the frame control fields out of their byte.
    pub fn from_byte(byte: u8) -> (fctrl: FCtrl)
        ensures
            fctrl == FCtrl::of_byte(byte),
            fctrl.f_opts_len <= 15,
    {
        let f_opts_len: u8 = byte & 0x0F;
        assert(f_opts_len <= 15) by (bit_vector)
            requires
                f_opts_len == byte & 0x0F,
        ;
        FCtrl {
            adr: (byte & 0x80) != 0,
            adr_ack_req: (byte & 0x40) != 0,
            ack: (byte & 0x20) != 0,
            class_b: (byte & 0x10) != 0,
            f_opts_len,
        }
    }
}

/// The options length that a frame control byte encodes never exceeds 15.
pub proof fn lemma_f_opts_len_bound(byte: u8)
    ensures
        FCtrl::of_byte(byte).f_opts_len <= 15,
{
    assert(byte & 0x0F <= 15) by (bit_vector);
}

/// Decoded LoRaWAN MAC frame.
#[derive(Debug, Clone)]
pub enum LoRaWANFrame {
    /// Data frame, up or down.
    Data {
        mtype: MType,
        dev_addr: u32,
        fctrl: FCtrl,
        fcnt: u16,
        f_opts: Vec<u8>,
        f_port: Option<u8>,
        frm_payload: Vec<u8>,
        mic: u32,
    },
    /// Join request.
    JoinRequest { app_eui: u64, dev_eui: u64, dev_nonce: u16, mic: u32 },
    /// Join accept: everything after the MAC header, still encrypted.
    JoinAccept { encrypted_payload: Vec<u8> },
    /// Proprietary frame: everything after the MAC header.
    Proprietary { payload: Vec<u8> },
}

/// What a frame holds, with byte strings as sequences.
pub enum FrameModel {
    Data {
        mtype: MType,
        dev_addr: u32,
        fctrl: FCtrl,
        fcnt: u16,
        f_opts: Seq<u8>,
        f_port: Option<u8>,
        frm_payload: Seq<u8>,
        mic: u32,
    },
    JoinRequest { app_eui: u64, dev_eui: u64, dev_nonce: u16, mic: u32 },
    JoinAccept { encrypted_payload: Seq<u8> },
    Proprietary { payload: Seq<u8> },
}

impl View for LoRaWANFrame {
    type V = FrameModel;

    open spec fn view(&self) -> FrameModel {
        match *self {
            LoRaWANFrame::Data {
                mtype,
                dev_addr,
                fctrl,
                fcnt,
                f_opts,
                f_port,
                frm_payload,
                mic,
            } => FrameModel::Data {
                mtype,
                dev_addr,
                fctrl,
                fcnt,
                f_opts: f_opts@,
                f_port,
                frm_payload: frm_payload@,
                mic,
            },
            LoRaWANFrame::JoinRequest { app_eui, dev_eui, dev_nonce, mic } => FrameModel::JoinRequest {
                app_eui,
                dev_eui,
                dev_nonce,
                mic,
            },
            LoRaWANFrame::JoinAccept { encrypted_payload } => FrameModel::JoinAccept {
                encrypted_payload: encrypted_payload@,
            },
            LoRaWANFrame::Proprietary { payload } => FrameModel::Proprietary { payload: payload@ },
        }
    }
}

/// Why a PHY payload is not a frame.
#[derive(Debug, Clone, Copy, PartialEq, Eq, Structural)]
pub enum FrameError {
    /// The payload has no bytes at all.
    Empty,
    /// A data frame shorter than the 12 bytes of header and integrity field.
    TooShort { len: usize },
    /// A join request that is not exactly 23 bytes long.
    JoinRequestLength { len: usize },
    /// The frame options would run into the integrity field.
    FOptsOverlap { f_opts_len: u8 },
    /// Rejoin requests are not decoded.
    RejoinRequest,
}

/// Shortest data frame: header, address, control, counter and integrity field.
pub const MIN_DATA_FRAME_LEN: usize = 12;

/// The exact length of a join request.
pub const JOIN_REQUEST_LEN: usize = 23;

/// The 16-bit little-endian number at `at`.
pub open spec fn le_u16_at(data: Seq<u8>, at: int) -> int {
    data[at] as int + 0x100 * (data[at + 1] as int)
}

/// The 32-bit little-endian number at `at`.
pub open spec fn le_u32_at(data: Seq<u8>, at: int) -> int {
    le_u16_at(data, at) + 0x1_0000 * le_u16_at(data, at + 2)
}

/// The 64-bit little-endian number at `at`.
pub open spec fn le_u64_at(data: Seq<u8>, at: int) -> int {
    le_u32_at(data, at) + 0x1_0000_0000 * le_u32_at(data, at + 4)
}

/// The join request that 23 bytes hold.
pub open spec fn decode_join_request_spec(data: Seq<u8>) -> Result<FrameModel, FrameError> {
    if data.len() != JOIN_REQUEST_LEN {
        Err(FrameError::JoinRequestLength { len: data.len() as usize })
    } else {
        Ok(
            FrameModel::JoinRequest {
                app_eui: le_u64_at(data, 1) as u64,
                dev_eui: le_u64_at(data, 9) as u64,
                dev_nonce: le_u16_at(data, 17) as u16,
                mic: le_u32_at(data, 19) as u32,
            },
        )
    }
}

/// The data frame that the bytes hold: address, control byte and counter,
/// then as many option bytes as the control byte announces; what is left
/// before the four bytes of the integrity field is the port and the payload.
pub open spec fn decode_data_frame_spec(mtype: MType, data: Seq<u8>) -> Result<
    FrameModel,
    FrameError,
> {
    if data.len() < MIN_DATA_FRAME_LEN {
        Err(FrameError::TooShort { len: data.len() as usize })
    } else {
        let fctrl = FCtrl::of_byte(data[5]);
        let f_opts_end = 8 + fctrl.f_opts_len as int;
        let mic_start = data.len() - 4;
        if f_opts_end > mic_start {
            Err(FrameError::FOptsOverlap { f_opts_len: fctrl.f_opts_len })
        } else {
            Ok(
                FrameModel::Data {
                    mtype,
                    dev_addr: le_u32_at(data, 1) as u32,
                    fctrl,
                    fcnt: le_u16_at(data, 6) as u16,
                    f_opts: data.subrange(8, f_opts_end),
                    f_port: if f_opts_end < mic_start {
                        Some(data[f_opts_end])
                    } else {
                        None
                    },
                    frm_payload: if f_opts_end < mic_start {
                        data.subrange(f_opts_end + 1, mic_start)
                    } else {
                        Seq::empty()
                    },
                    mic: le_u32_at(data, mic_start) as u32,
                },
            )
        }
    }
}

/// The frame that a PHY payload holds, or why it holds none.
pub open spec fn decode_spec(data: Seq<u8>) -> Result<FrameModel, FrameError> {
    if data.len() == 0 {
        Err(FrameError::Empty)
    } else {
        let mtype = MType::of_mhdr(data[0]);
        match mtype {
            MType::JoinRequest => decode_join_request_spec(data),
            MType::JoinAccept => Ok(
                FrameModel::JoinAccept { encrypted_payload: data.subrange(1, data.len() as int) },
            ),
            MType::Proprietary => Ok(
                FrameModel::Proprietary { payload: data.subrange(1, data.len() as int) },
            ),
            MType::RejoinRequest => Err(FrameError::RejoinRequest),
            _ => decode_data_frame_spec(mtype, data),
        }
    }
}

/// Whether a decoding result is the one that the model gives.
pub open spec fn decodes_as(
    result: Result<LoRaWANFrame, FrameError>,
    model: Result<FrameModel, FrameError>,
) -> bool {
    match result {
        Ok(frame) => model == Ok::<FrameModel, FrameError>(frame@),
        Err(e) => model == Err::<FrameModel, FrameError>(e),
    }
}

/// Copies `data[from..to]` into a vector of its own.
pub(crate) fn copy_range(data: &[u8], from: usize, to: usize) -> (out: Vec<u8>)
    requires
        from <= to <= data.len(),
    ensures
        out@ == data@.subrange(from as int, to as int),
{
    let mut out: Vec<u8> = Vec::new();
    let mut i: usize = from;
    while i < to
        invariant
            from <= i <= to <= data.len(),
            out@ == data@.subrange(from as int, i as int),
        decreases to - i,
    {
        out.push(data[i]);
        i += 1;
        assert(out@ =~= data@.subrange(from as int, i as int));
    }
    out
}

fn read_u16_le(data: &[u8], at: usize) -> (value: u16)
    requires
        at + 2 <= data.len(),
    ensures
        value == le_u16_at(data@, at as int),
{
    (data[at] as u16) + 0x100 * (data[at + 1] as u16)
}

fn read_u32_le(data: &[u8], at: usize) -> (value: u32)
    requires
        at + 4 <= data.len(),
    ensures
        value == le_u32_at(data@, at as int),
{
    (read_u16_le(data, at) as u32) + 0x1_0000 * (read_u16_le(data, at + 2) as u32)
}

fn read_u64_le(data: &[u8], at: usize) -> (value: u64)
    requires
        at + 8 <= data.len(),
    ensures
        value == le_u64_at(data@, at as int),
{
    (read_u32_le(data, at) as u64) + 0x1_0000_0000 * (read_u32_le(data, at + 4) as u64)
}

/// Decodes a LoRaWAN PHY payload, the raw bytes of one frame.
pub fn decode_phy_payload(data: &[u8]) -> (result: Result<LoRaWANFrame, FrameError>)
    ensures
        decodes_as(result, decode_spec(data@)),
{
    if data.len() == 0 {
        return Err(FrameError::Empty);
    }
    let mtype = MType::from_mhdr(data[0]);
    match mtype {
        MType::JoinRequest => decode_join_request(data),
        MType::JoinAccept => Ok(
            LoRaWANFrame::JoinAccept { encrypted_payload: copy_range(data, 1, data.len()) },
        ),
        MType::Proprietary => Ok(
            LoRaWANFrame::Proprietary { payload: copy_range(data, 1, data.len()) },
        ),
        MType::RejoinRequest => Err(FrameError::RejoinRequest),
        _ => decode_data_frame(mtype, data),
    }
}

/// Decodes a join request: header, two 8-byte identifiers, the nonce and the
/// integrity field, 23 bytes in all.
pub fn decode_join_request(data: &[u8]) -> (result: Result<LoRaWANFrame, FrameError>)
    ensures
        decodes_as(result, decode_join_request_spec(data@)),
{
    if data.len() != JOIN_REQUEST_LEN {
        return Err(FrameError::JoinRequestLength { len: data.len() });
    }
    Ok(
        LoRaWANFrame::JoinRequest {
            app_eui: read_u64_le(data, 1),
            dev_eui: read_u64_le(data, 9),
            dev_nonce: read_u16_le(data, 17),
            mic: read_u32_le(data, 19),
        },
    )
}

/// Decodes a data frame of the given message type.
pub fn decode_data_frame(mtype: MType, data: &[u8]) -> (result: Result<LoRaWANFrame, FrameError>)
    ensures
        decodes_as(result, decode_data_frame_spec(mtype, data@)),
{
    if data.len() < MIN_DATA_FRAME_LEN {
        return Err(FrameError::TooShort { len: data.len() });
    }
    let dev_addr = read_u32_le(data, 1);
    let fctrl = FCtrl::from_byte(data[5]);
    let fcnt = read_u16_le(data, 6);
    let f_opts_end: usize = 8 + fctrl.f_opts_len as usize;
    let mic_start: usize = data.len() - 4;
    if f_opts_end > mic_start {
        return Err(FrameError::FOptsOverlap { f_opts_len: fctrl.f_opts_len });
    }
    let f_opts = copy_range(data, 8, f_opts_end);
    let mut f_port: Option<u8> = None;
    let mut frm_payload: Vec<u8> = Vec::new();
    if f_opts_end < mic_start {
        f_port = Some(data[f_opts_end]);
        frm_payload = copy_range(data, f_opts_end + 1, mic_start);
    }
    let mic = read_u32_le(data, mic_start);
    Ok(LoRaWANFrame::Data { mtype, dev_addr, fctrl, fcnt, f_opts, f_port, frm_payload, mic })
}

/// A payload too short for a data frame whose header selects a data type is
/// refused as too short, whatever else it holds.
pub proof fn lemma_short_data_frame_refused(data: Seq<u8>)
    requires
        0 < data.len() < MIN_DATA_FRAME_LEN,
        MType::of_mhdr(data[0]).is_data(),
    ensures
        decode_spec(data) == Err::<FrameModel, FrameError>(
            FrameError::TooShort { len: data.len() as usize },
        ),
{
}

/// "true" or "false".
pub open spec fn bool_text(value: bool) -> Seq<char> {
    if value {
        "true"@
    } else {
        "false"@
    }
}

/// The port of a frame in decimal, or a hyphen where it has none.
pub open spec fn port_text(f_port: Option<u8>) -> Seq<char> {
    match f_port {
        Some(port) => decimal_text(port as nat),
        None => "-"@,
    }
}

/// One line that says what a frame holds.
pub open spec fn frame_text(frame: FrameModel) -> Seq<char> {
    match frame {
        FrameModel::Data { mtype, dev_addr, fctrl, fcnt, f_port, frm_payload, mic, .. } => {
            mtype.spec_name() + " DevAddr="@ + upper_hex8(dev_addr) + " FCnt="@ + decimal_text(
                fcnt as nat,
            ) + " FPort="@ + port_text(f_port) + " Payload="@ + decimal_text(frm_payload.len())
                + " bytes MIC="@ + upper_hex8(mic) + " ADR="@ + bool_text(fctrl.adr)
        },
        FrameModel::JoinRequest { app_eui, dev_eui, dev_nonce, mic } => {
            "JoinRequest AppEUI="@ + upper_hex16(app_eui) + " DevEUI="@ + upper_hex16(dev_eui)
                + " DevNonce="@ + decimal_text(dev_nonce as nat) + " MIC="@ + upper_hex8(mic)
        },
        FrameModel::JoinAccept { encrypted_payload } => {
            "JoinAccept (encrypted, "@ + decimal_text(encrypted_payload.len()) + " bytes)"@
        },
        FrameModel::Proprietary { payload } => {
            "Proprietary ("@ + decimal_text(payload.len()) + " bytes)"@
        },
    }
}

impl LoRaWANFrame {
    /// One line that says what the frame holds, for the log.
    pub fn describe(&self) -> (text: String)
        ensures
            text@ == frame_text(self@),
    {
        match self {
            LoRaWANFrame::Data { mtype, dev_addr, fctrl, fcnt, f_port, frm_payload, mic, .. } => {
                let mut text = mtype.name();
                text.append(" DevAddr=");
                text.append(u32_to_upper_hex(*dev_addr).as_str());
                text.append(" FCnt=");
                text.append(u64_to_decimal(*fcnt as u64).as_str());
                text.append(" FPort=");
                match f_port {
                    Some(port) => text.append(u64_to_decimal(*port as u64).as_str()),
                    None => text.append("-"),
                }
                text.append(" Payload=");
                text.append(u64_to_decimal(frm_payload.len() as u64).as_str());
                text.append(" bytes MIC=");
                text.append(u32_to_upper_hex(*mic).as_str());
                text.append(" ADR=");
                if fctrl.adr {
                    text.append("true");
                } else {
                    text.append("false");
                }
                text
            },
            LoRaWANFrame::JoinRequest { app_eui, dev_eui, dev_nonce, mic } => {
                let mut text = "JoinRequest AppEUI=".to_owned();
                text.append(u64_to_upper_hex(*app_eui).as_str());
                text.append(" DevEUI=");
                text.append(u64_to_upper_hex(*dev_eui).as_str());
                text.append(" DevNonce=");
                text.append(u64_to_decimal(*dev_nonce as u64).as_str());
                text.append(" MIC=");
                text.append(u32_to_upper_hex(*mic).as_str());
                text
            },
            LoRaWANFrame::JoinAccept { encrypted_payload } => {
                let mut text = "JoinAccept (encrypted, ".to_owned();
                text.append(u64_to_decimal(encrypted_payload.len() as u64).as_str());
                text.append(" bytes)");
                text
            },
            LoRaWANFrame::Proprietary { payload } => {
                let mut text = "Proprietary (".to_owned();
                text.append(u64_to_decimal(payload.len() as u64).as_str());
                text.append(" bytes)");
                text
            },
        }
    }
}

} // verus!
