//! Values exchanged with the agent on the upstream host.

use vstd::prelude::*;
use crate::udp::protocol::Decimal;

verus! {

/// A point in time: seconds since the Unix epoch, UTC, and the nanoseconds
/// into that second.
#[derive(Debug, Clone, Copy, PartialEq, Eq, Structural, Hash)]
pub struct Timestamp {
    pub secs: i64,
    pub nanos: u32,
}

/// Where a packet came from.
#[derive(Debug, Clone, Copy, PartialEq, Eq, Structural)]
pub enum PacketSource {
    /// Straight from a LoRa gateway of one's own.
    Local,
    /// Routed through an external network, Helium.
    Helium,
}

impl PacketSource {
    /// The tag under which the source is reported.
    pub open spec fn spec_tag(self) -> Seq<char> {
        match self {
            PacketSource::Local => "local"@,
            PacketSource::Helium => "external-network"@,
        }
    }

    /// The tag under which the source is reported.
    pub fn tag(&self) -> (tag: String)
        ensures
            tag@ == self.spec_tag(),
    {
        match self {
            PacketSource::Local => "local".to_owned(),
            PacketSource::Helium => "external-network".to_owned(),
        }
    }
}

/// A decoded uplink, ready to be handed to the agent.
#[derive(Debug, Clone)]
pub struct LoRaPacket {
    /// Device address, eight upper-case hexadecimal digits.
    pub dev_addr: String,
    /// Frame counter.
    pub fcnt: u16,
    /// Application port.
    pub f_port: Option<u8>,
    /// Application payload in hexadecimal.
    pub payload: String,
    /// Signal strength in dBm.
    pub rssi: Decimal,
    /// Signal-to-noise ratio in dB.
    pub snr: Option<Decimal>,
    /// Frequency in MHz.
    pub freq: Decimal,
    /// Data rate identifier, such as "SF7BW125".
    pub data_rate: String,
    /// Identifier of the gateway that received the packet, in hexadecimal.
    pub gateway_eui: String,
    /// When the packet was received.
    pub received_at: Timestamp,
    /// Name of the message type.
    pub mtype: String,
    /// Where the packet came from.
    pub source: PacketSource,
}

/// What the agent can be asked to do.
#[derive(Debug, Clone)]
pub enum LoRaAction {
    /// Take in a received uplink.
    Uplink(LoRaPacket),
    /// Register a device.
    RegisterDevice { dev_addr: String, name: Option<String>, description: Option<String> },
    /// Queue a downlink to a device; the payload is in hexadecimal.
    Downlink { dev_addr: String, f_port: u8, payload: String, confirmed: bool },
}

/// What the agent reports of a device.
#[derive(Debug, Clone)]
pub struct LoRaUpdate {
    pub dev_addr: String,
    pub last_seen: Timestamp,
    pub packet_count: u64,
    pub last_packet: Option<LoRaPacket>,
}

/// A downlink that waits in the agent's outbox.
#[derive(Debug, Clone)]
pub struct OutboundMessage {
    /// Identifier that the agent gave the message.
    pub id: u64,
    /// Destination ship, such as "~bus".
    pub dest_ship: String,
    /// Address of the destination device in hexadecimal, such as "01AB5678".
    pub dest_addr: String,
    /// Application payload in hexadecimal.
    pub payload: String,
    /// When the message was queued.
    pub queued_at: String,
    /// Address of the sending device in hexadecimal. Where it is given and
    /// not empty it goes into the frame header in place of the destination,
    /// so that the receiving side sees where the message comes from.
    pub src_addr: Option<String>,
}

/// What the agent is told of a downlink: that it was sent, or that it was not.
#[derive(Debug, Clone)]
pub struct TxAck {
    pub action: String,
    pub msg_id: u64,
}

impl TxAck {
    /// The report that the message was transmitted.
    pub fn success(msg_id: u64) -> (ack: TxAck)
        ensures
            ack.action@ == "tx-ack"@,
            ack.msg_id == msg_id,
    {
        TxAck { action: "tx-ack".to_owned(), msg_id }
    }

    /// The report that the message could not be transmitted.
    pub fn failure(msg_id: u64) -> (ack: TxAck)
        ensures
            ack.action@ == "tx-fail"@,
            ack.msg_id == msg_id,
    {
        TxAck { action: "tx-fail".to_owned(), msg_id }
    }
}

} // verus!
