//! Encoder for LoRaWAN data frames.
//!
//! Frame layout:
//!   MHDR(1) | DevAddr(4, LE) | FCtrl(1) | FCnt(2, LE) | [FPort(1) | FRMPayload(N)] | MIC(4)
//!
//! The frame control byte is zero and the integrity field is four zero bytes:
//! no session keys are at hand, so no integrity code is computed.

use vstd::prelude::*;
use super::{decode_spec, FrameError, FCtrl, FrameModel, MType};

verus! {

/// The two bytes of a 16-bit number, least significant first.
pub open spec fn le_bytes_u16(value: u16) -> Seq<u8> {
    seq![(value % 0x100) as u8, (value / 0x100) as u8]
}

/// The four bytes of a 32-bit number, least significant first.
pub open spec fn le_bytes_u32(value: u32) -> Seq<u8> {
    seq![
        (value % 0x100) as u8,
        (value / 0x100 % 0x100) as u8,
        (value / 0x1_0000 % 0x100) as u8,
        (value / 0x100_0000) as u8,
    ]
}

/// The MAC header of a data frame of the given type, major version zero.
/// A type that is no data type is sent as an unconfirmed downlink.
pub open spec fn mhdr_of(mtype: MType) -> u8 {
    match mtype {
        MType::UnconfirmedDataDown => 0x60,
        MType::ConfirmedDataDown => 0xA0,
        MType::UnconfirmedDataUp => 0x40,
        MType::ConfirmedDataUp => 0x80,
        _ => 0x60,
    }
}

/// The frame control fields of every encoded frame: nothing set, no options.
pub open spec fn plain_fctrl() -> FCtrl {
    FCtrl { adr: false, adr_ack_req: false, ack: false, class_b: false, f_opts_len: 0 }
}

/// Parameters of a LoRaWAN data frame.
#[derive(Debug, Clone)]
pub struct FrameBuilder {
    /// Message type, as a rule an unconfirmed downlink.
    pub mtype: MType,
    /// Device address.
    pub dev_addr: u32,
    /// Frame counter, kept by the caller.
    pub fcnt: u16,
    /// Application port, sent only together with a payload.
    pub f_port: u8,
    /// Application payload, sent as it is.
    pub payload: Vec<u8>,
}

/// The message type under which a frame of the given type goes out.
pub open spec fn wire_mtype(mtype: MType) -> MType {
    if mtype.is_data() {
        mtype
    } else {
        MType::UnconfirmedDataDown
    }
}

/// Port and payload as they stand in a frame: nothing at all where the
/// payload is empty.
pub open spec fn frame_body(f_port: u8, payload: Seq<u8>) -> Seq<u8> {
    if payload.len() > 0 {
        seq![f_port] + payload
    } else {
        Seq::empty()
    }
}

/// The bytes of an encoded data frame.
pub open spec fn frame_bytes(mtype: MType, dev_addr: u32, fcnt: u16, f_port: u8, payload: Seq<u8>) -> Seq<
    u8,
> {
    seq![mhdr_of(mtype)] + le_bytes_u32(dev_addr) + seq![0u8] + le_bytes_u16(fcnt) + frame_body(
        f_port,
        payload,
    ) + seq![0u8, 0u8, 0u8, 0u8]
}

/// The frame that a receiver decodes out of an encoded data frame.
pub open spec fn frame_model(mtype: MType, dev_addr: u32, fcnt: u16, f_port: u8, payload: Seq<u8>) -> FrameModel {
    FrameModel::Data {
        mtype: wire_mtype(mtype),
        dev_addr,
        fctrl: plain_fctrl(),
        fcnt,
        f_opts: Seq::empty(),
        f_port: if payload.len() > 0 {
            Some(f_port)
        } else {
            None
        },
        frm_payload: payload,
        mic: 0,
    }
}

/// The length of an encoded data frame: twelve bytes around port and payload.
pub proof fn lemma_frame_len(mtype: MType, dev_addr: u32, fcnt: u16, f_port: u8, payload: Seq<u8>)
    ensures
        frame_bytes(mtype, dev_addr, fcnt, f_port, payload).len() == if payload.len() > 0 {
            13 + payload.len()
        } else {
            12
        },
{
}

impl FrameBuilder {
    /// The bytes of the encoded frame.
    pub open spec fn wire(&self) -> Seq<u8> {
        frame_bytes(self.mtype, self.dev_addr, self.fcnt, self.f_port, self.payload@)
    }

    /// The frame that the builder describes, as a receiver decodes it.
    pub open spec fn frame(&self) -> FrameModel {
        frame_model(self.mtype, self.dev_addr, self.fcnt, self.f_port, self.payload@)
    }

    /// A builder for an unconfirmed downlink.
    pub fn new_downlink(dev_addr: u32, fcnt: u16, f_port: u8, payload: Vec<u8>) -> (builder: Self)
        ensures
            builder.mtype == MType::UnconfirmedDataDown,
            builder.dev_addr == dev_addr,
            builder.fcnt == fcnt,
            builder.f_port == f_port,
            builder.payload == payload,
    {
        FrameBuilder { mtype: MType::UnconfirmedDataDown, dev_addr, fcnt, f_port, payload }
    }

    /// Builds the raw PHY payload.
    pub fn build(&self) -> (frame: Vec<u8>)
        ensures
            frame@ == self.wire(),
            frame@.len() == 12 + frame_body(self.f_port, self.payload@).len(),
    {
        let mut frame: Vec<u8> = Vec::new();
        let mhdr: u8 = match self.mtype {
            MType::UnconfirmedDataDown => 0x60,
            MType::ConfirmedDataDown => 0xA0,
            MType::UnconfirmedDataUp => 0x40,
            MType::ConfirmedDataUp => 0x80,
            _ => 0x60,
        };
        frame.push(mhdr);
        frame.push((self.dev_addr % 0x100) as u8);
        frame.push((self.dev_addr / 0x100 % 0x100) as u8);
        frame.push((self.dev_addr / 0x1_0000 % 0x100) as u8);
        frame.push((self.dev_addr / 0x100_0000) as u8);
        frame.push(0x00);
        frame.push((self.fcnt % 0x100) as u8);
        frame.push((self.fcnt / 0x100) as u8);
        if self.payload.len() > 0 {
            frame.push(self.f_port);
            frame.extend_from_slice(self.payload.as_slice());
        }
        frame.push(0x00);
        frame.push(0x00);
        frame.push(0x00);
        frame.push(0x00);
        assert(frame@ =~= self.wire());
        frame
    }
}

/// Decoding an encoded frame gives back what went in: type, address,
/// counter, port and payload, no options, and a zero integrity field. The
/// port comes back only together with a payload.
pub proof fn lemma_decode_inverts_encode(
    mtype: MType,
    dev_addr: u32,
    fcnt: u16,
    f_port: u8,
    payload: Seq<u8>,
)
    ensures
        decode_spec(frame_bytes(mtype, dev_addr, fcnt, f_port, payload)) == Ok::<
            FrameModel,
            FrameError,
        >(frame_model(mtype, dev_addr, fcnt, f_port, payload)),
{
    let wire = frame_bytes(mtype, dev_addr, fcnt, f_port, payload);
    let mhdr = mhdr_of(mtype);
    let body = frame_body(f_port, payload);
    assert(wire.len() == 12 + body.len());
    assert(wire[0] == mhdr);
    assert(MType::of_mhdr(mhdr) == wire_mtype(mtype)) by {
        assert((0x60u8 >> 5) & 0x07 == 3) by (bit_vector);
        assert((0xA0u8 >> 5) & 0x07 == 5) by (bit_vector);
        assert((0x40u8 >> 5) & 0x07 == 2) by (bit_vector);
        assert((0x80u8 >> 5) & 0x07 == 4) by (bit_vector);
    }
    assert(wire[5] == 0u8);
    assert(FCtrl::of_byte(0u8) == plain_fctrl()) by {
        assert(0u8 & 0x80 == 0) by (bit_vector);
        assert(0u8 & 0x40 == 0) by (bit_vector);
        assert(0u8 & 0x20 == 0) by (bit_vector);
        assert(0u8 & 0x10 == 0) by (bit_vector);
        assert(0u8 & 0x0F == 0) by (bit_vector);
    }
    assert(wire[1] == (dev_addr % 0x100) as u8);
    assert(wire[2] == (dev_addr / 0x100 % 0x100) as u8);
    assert(wire[3] == (dev_addr / 0x1_0000 % 0x100) as u8);
    assert(wire[4] == (dev_addr / 0x100_0000) as u8);
    assert(super::le_u32_at(wire, 1) == dev_addr);
    assert(wire[6] == (fcnt % 0x100) as u8);
    assert(wire[7] == (fcnt / 0x100) as u8);
    assert(super::le_u16_at(wire, 6) == fcnt);
    let mic_start = wire.len() - 4;
    assert(wire[mic_start] == 0u8);
    assert(wire[mic_start + 1] == 0u8);
    assert(wire[mic_start + 2] == 0u8);
    assert(wire[mic_start + 3] == 0u8);
    assert(super::le_u32_at(wire, mic_start) == 0);
    assert(wire.subrange(8, 8) =~= Seq::<u8>::empty());
    if payload.len() > 0 {
        assert(wire[8] == f_port);
        assert(wire.subrange(9, mic_start) =~= payload);
    } else {
        assert(payload =~= Seq::<u8>::empty());
    }
}

/// Decoding what a builder builds gives back the frame that it describes.
pub proof fn lemma_decode_inverts_build(builder: FrameBuilder)
    ensures
        decode_spec(builder.wire()) == Ok::<FrameModel, FrameError>(builder.frame()),
{
    lemma_decode_inverts_encode(
        builder.mtype,
        builder.dev_addr,
        builder.fcnt,
        builder.f_port,
        builder.payload@,
    );
}

} // verus!
