//! The outbox poller: turns the messages that wait in the agent's outbox
//! into downlinks, one frame counter after the other.

use vstd::prelude::*;
use crate::encoding::{
    base64_encode,
    base64_text,
    hex_bytes,
    hex_decode,
    hex_u32,
    is_hex_text,
    u32_from_hex,
};
use crate::lorawan::encoder::{frame_bytes, lemma_frame_len, FrameBuilder};
use crate::lorawan::MType;
use crate::udp::protocol::Txpk;
use crate::udp::{build_txpk, is_downlink_txpk};
use crate::urbit::types::{OutboundMessage, TxAck};

verus! {

/// The application port of every downlink.
pub const DOWNLINK_FPORT: u8 = 1;

/// Seconds between two looks into the outbox.
pub const POLL_PERIOD_SECS: u64 = 2;

/// Why a message of the outbox gives no downlink.
#[derive(Debug, Clone, Copy, PartialEq, Eq, Structural)]
pub enum OutboxError {
    /// The device address is no 32-bit hexadecimal number.
    InvalidDevAddr,
    /// The payload is no hexadecimal text.
    InvalidPayloadHex,
}

/// The address that goes into the frame header: that of the sender where
/// the message names one, else that of the destination.
pub open spec fn header_addr(msg: OutboundMessage) -> Seq<char> {
    match msg.src_addr {
        Some(src) => if src@.len() > 0 {
            src@
        } else {
            msg.dest_addr@
        },
        None => msg.dest_addr@,
    }
}

/// The frame of the downlink for a message under a frame counter: an
/// unconfirmed downlink on port 1. The address is looked at before the
/// payload.
pub open spec fn downlink_frame(msg: OutboundMessage, fcnt: u16) -> Result<Seq<u8>, OutboxError> {
    match hex_u32(header_addr(msg)) {
        None => Err(OutboxError::InvalidDevAddr),
        Some(dev_addr) => if is_hex_text(msg.payload@) {
            Ok(
                frame_bytes(
                    MType::UnconfirmedDataDown,
                    dev_addr,
                    fcnt,
                    DOWNLINK_FPORT,
                    hex_bytes(msg.payload@),
                ),
            )
        } else {
            Err(OutboxError::InvalidPayloadHex)
        },
    }
}

/// Whether `result` is the transmit request for a message under a frame
/// counter: the frame in base64, and its length as far as 16 bits hold it.
pub open spec fn is_downlink_request(
    result: Result<Txpk, OutboxError>,
    msg: OutboundMessage,
    fcnt: u16,
) -> bool {
    match downlink_frame(msg, fcnt) {
        Err(e) => result == Err::<Txpk, OutboxError>(e),
        Ok(frame) => result matches Ok(txpk) && is_downlink_txpk(
            txpk,
            base64_text(frame),
            (frame.len() % 0x1_0000) as u16,
        ),
    }
}

/// The frame counter after one more downlink: one up, and from 65535 to 0.
pub open spec fn next_fcnt(fcnt: u16) -> u16 {
    ((fcnt + 1) % 0x1_0000) as u16
}

/// Picks the address that goes into the frame header.
pub fn frame_header_addr(msg: &OutboundMessage) -> (addr: &str)
    ensures
        addr@ == header_addr(*msg),
{
    match &msg.src_addr {
        Some(src) => {
            if src.as_str().is_empty() {
                msg.dest_addr.as_str()
            } else {
                src.as_str()
            }
        },
        None => msg.dest_addr.as_str(),
    }
}

/// Makes the transmit request for a message of the outbox under the given
/// frame counter.
pub fn prepare_downlink(msg: &OutboundMessage, fcnt: u16) -> (result: Result<Txpk, OutboxError>)
    ensures
        is_downlink_request(result, *msg, fcnt),
{
    let dev_addr = match u32_from_hex(frame_header_addr(msg)) {
        None => {
            return Err(OutboxError::InvalidDevAddr);
        },
        Some(dev_addr) => dev_addr,
    };
    let text_len = msg.payload.as_str().unicode_len();
    let payload = match hex_decode(msg.payload.as_str()) {
        Err(_) => {
            return Err(OutboxError::InvalidPayloadHex);
        },
        Ok(payload) => payload,
    };
    let frame = FrameBuilder::new_downlink(dev_addr, fcnt, DOWNLINK_FPORT, payload).build();
    proof {
        lemma_frame_len(
            MType::UnconfirmedDataDown,
            dev_addr,
            fcnt,
            DOWNLINK_FPORT,
            hex_bytes(msg.payload@),
        );
        assert(frame@.len() <= 13 + text_len / 2);
    }
    let payload_b64 = base64_encode(frame.as_slice());
    let size: u16 = (frame.len() % 0x1_0000) as u16;
    Ok(build_txpk(payload_b64.as_str(), size))
}

/// The outbox poller's frame counter. It starts at 0 and goes up by one
/// with each downlink that is made, wrapping at 16 bits.
#[derive(Debug, Clone, Copy, PartialEq, Eq, Structural)]
pub struct DownlinkCounter {
    pub fcnt: u16,
}

impl DownlinkCounter {
    /// A counter at 0.
    pub fn new() -> (counter: Self)
        ensures
            counter.fcnt == 0,
    {
        DownlinkCounter { fcnt: 0 }
    }

    /// Makes the transmit request for the next message of the outbox. Where
    /// one is made the counter goes up by one, wrapping at 16 bits; a message
    /// that gives none leaves it as it is.
    pub fn dispatch(&mut self, msg: &OutboundMessage) -> (result: Result<Txpk, OutboxError>)
        ensures
            is_downlink_request(result, *msg, old(self).fcnt),
            result.is_ok() ==> final(self).fcnt == next_fcnt(old(self).fcnt),
            result.is_err() ==> final(self).fcnt == old(self).fcnt,
    {
        let result = prepare_downlink(msg, self.fcnt);
        if result.is_ok() {
            self.fcnt = self.fcnt.wrapping_add(1);
        }
        result
    }
}

/// What the agent is told of a message once its downlink was tried: sent,
/// or failed - for a bad address or payload, for want of a gateway, or on
/// the socket.
pub fn transmit_report(msg_id: u64, sent: bool) -> (ack: TxAck)
    ensures
        ack.msg_id == msg_id,
        ack.action@ == if sent {
            "tx-ack"@
        } else {
            "tx-fail"@
        },
{
    if sent {
        TxAck::success(msg_id)
    } else {
        TxAck::failure(msg_id)
    }
}

/// The counter goes up by exactly one with each downlink, and after 65536
/// of them it is where it was.
pub proof fn lemma_fcnt_steps(fcnt: u16)
    ensures
        fcnt < 0xFFFF ==> next_fcnt(fcnt) == fcnt + 1,
        fcnt == 0xFFFF ==> next_fcnt(fcnt) == 0,
        next_fcnt(fcnt) != fcnt,
{
}

/// The frame counter after a number of downlinks.
pub open spec fn fcnt_after(start: u16, downlinks: nat) -> u16
    decreases downlinks,
{
    if downlinks == 0 {
        start
    } else {
        next_fcnt(fcnt_after(start, (downlinks - 1) as nat))
    }
}

/// After any number of downlinks the counter has gone up by that number,
/// modulo two to the sixteenth.
pub proof fn lemma_fcnt_counts_downlinks(start: u16, downlinks: nat)
    ensures
        fcnt_after(start, downlinks) == (start + downlinks) % 0x1_0000,
    decreases downlinks,
{
    if downlinks > 0 {
        lemma_fcnt_counts_downlinks(start, (downlinks - 1) as nat);
    }
}

} // verus!
