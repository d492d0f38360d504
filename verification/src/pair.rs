//! The gateway pair: two gateway endpoints, A and B, wired back to back.
//! What the bridge of one side sends up comes out as an uplink at the bridge
//! of the other side, and a downlink for one side arrives as an uplink at
//! the other.
//!
//! Nothing here touches a socket. Each endpoint hands its datagrams to
//! [`GatewayPair::receive`] and sends what comes back: the answer from its
//! own socket, the relayed datagram from the socket of its peer.

use vstd::prelude::*;
use crate::udp::protocol::{
    pull_ack_bytes,
    pull_data_bytes,
    push_ack_bytes,
    push_data_bytes,
    token_of,
    tx_ack_bytes,
    Decimal,
    GatewayEui,
    GwmpPacket,
    PacketType,
    Rxpk,
};
use crate::udp::{string_of, PeerAddr};
use crate::lorawan::copy_range;

verus! {

/// The first token that the pair gives out.
pub const FIRST_TOKEN: u16 = 0x1000;

/// Seconds between two PULL_DATA keepalives of an endpoint.
pub const KEEPALIVE_PERIOD_SECS: u64 = 10;

/// One of the two endpoints.
#[derive(Debug, Clone, Copy, PartialEq, Eq, Structural)]
pub enum Side {
    A,
    B,
}

impl Side {
    /// The other endpoint.
    pub open spec fn peer(self) -> Side {
        match self {
            Side::A => Side::B,
            Side::B => Side::A,
        }
    }

    /// The gateway identifier of the endpoint.
    pub open spec fn eui_spec(self) -> Seq<u8> {
        match self {
            Side::A => seq![0xAAu8, 0u8, 0u8, 0u8, 0u8, 0u8, 0u8, 0x01u8],
            Side::B => seq![0xBBu8, 0u8, 0u8, 0u8, 0u8, 0u8, 0u8, 0x02u8],
        }
    }

    /// The other endpoint.
    pub fn other(&self) -> (side: Side)
        ensures
            side == self.peer(),
    {
        match self {
            Side::A => Side::B,
            Side::B => Side::A,
        }
    }

    /// The gateway identifier of the endpoint. The two differ, so that the
    /// bridges can tell the gateways apart.
    pub fn eui(&self) -> (eui: GatewayEui)
        ensures
            eui@ == self.eui_spec(),
    {
        let eui: GatewayEui = match self {
            Side::A => [0xAA, 0, 0, 0, 0, 0, 0, 0x01],
            Side::B => [0xBB, 0, 0, 0, 0, 0, 0, 0x02],
        };
        assert(eui@ =~= self.eui_spec());
        eui
    }
}

/// The state of the pair: where the bridge of each side was last seen, where
/// it is taken to be until then, and the token that goes out next.
#[derive(Debug, Clone, Copy, PartialEq, Eq, Structural)]
pub struct GatewayPair {
    pub bridge_a: Option<PeerAddr>,
    pub bridge_b: Option<PeerAddr>,
    pub default_a: PeerAddr,
    pub default_b: PeerAddr,
    pub next_token: u16,
}

/// A datagram to send, and where to.
#[derive(Debug)]
pub struct Outgoing {
    pub dest: PeerAddr,
    pub datagram: Vec<u8>,
}

/// Why an endpoint drops a datagram.
#[derive(Debug, Clone, Copy, PartialEq, Eq, Structural)]
pub enum DropReason {
    /// Fewer than the four bytes of the header.
    TooShort { len: usize },
    /// A PUSH_DATA or PULL_DATA without room for the gateway identifier.
    MissingGatewayEui { id: u8 },
    /// A TX_ACK: gateways send those, they do not get them.
    UnexpectedTxAck,
    /// The kind byte names no packet kind.
    UnknownKind { id: u8 },
}

/// What an endpoint does about a datagram.
#[derive(Debug)]
pub enum RelayAction {
    /// A PUSH_DATA: acknowledge it to the source, and send the relayed
    /// PUSH_DATA from the socket of the peer.
    Relay { ack: Vec<u8>, forward: Outgoing },
    /// A PULL_DATA: acknowledge it to the source.
    Acknowledge { ack: Vec<u8> },
    /// A PULL_RESP: turn the transmit request of the body into a received
    /// packet and relay that, then report the transmission to the source
    /// with `tx_ack`.
    Transmit { body: Vec<u8>, tx_ack: Vec<u8> },
    /// An acknowledgement: nothing to do.
    Ignored,
    /// Nothing to do but to complain.
    Dropped(DropReason),
}

/// What an endpoint does about a datagram, with bytes as sequences.
pub enum RelayModel {
    Relay { ack: Seq<u8>, dest: PeerAddr, datagram: Seq<u8> },
    Acknowledge { ack: Seq<u8> },
    Transmit { body: Seq<u8>, tx_ack: Seq<u8> },
    Ignored,
    Dropped(DropReason),
}

impl View for RelayAction {
    type V = RelayModel;

    open spec fn view(&self) -> RelayModel {
        match self {
            RelayAction::Relay { ack, forward } => RelayModel::Relay {
                ack: ack@,
                dest: forward.dest,
                datagram: forward.datagram@,
            },
            RelayAction::Acknowledge { ack } => RelayModel::Acknowledge { ack: ack@ },
            RelayAction::Transmit { body, tx_ack } => RelayModel::Transmit {
                body: body@,
                tx_ack: tx_ack@,
            },
            RelayAction::Ignored => RelayModel::Ignored,
            RelayAction::Dropped(reason) => RelayModel::Dropped(*reason),
        }
    }
}

impl GatewayPair {
    /// Where the bridge of a side was last seen.
    pub open spec fn bridge(self, side: Side) -> Option<PeerAddr> {
        match side {
            Side::A => self.bridge_a,
            Side::B => self.bridge_b,
        }
    }

    /// Where datagrams for the bridge of a side go: where it was last seen,
    /// and until it is seen, where it is configured to be.
    pub open spec fn bridge_dest(self, side: Side) -> PeerAddr {
        match side {
            Side::A => match self.bridge_a {
                Some(addr) => addr,
                None => self.default_a,
            },
            Side::B => match self.bridge_b {
                Some(addr) => addr,
                None => self.default_b,
            },
        }
    }

    /// The pair once the bridge of a side was seen at an address.
    pub open spec fn seen(self, side: Side, addr: PeerAddr) -> GatewayPair {
        match side {
            Side::A => GatewayPair { bridge_a: Some(addr), ..self },
            Side::B => GatewayPair { bridge_b: Some(addr), ..self },
        }
    }

    /// The pair once a token was given out.
    pub open spec fn token_taken(self) -> GatewayPair {
        GatewayPair { next_token: ((self.next_token + 1) % 0x1_0000) as u16, ..self }
    }

    /// The PUSH_DATA that carries a body to the bridge of a side, under the
    /// next token and the gateway identifier of that side.
    pub open spec fn uplink_for(self, side: Side, body: Seq<u8>) -> (PeerAddr, Seq<u8>) {
        (self.bridge_dest(side), push_data_bytes(self.next_token, side.eui_spec(), body))
    }

    /// The pair after the endpoint `side` got a datagram from `src`.
    pub open spec fn after_receive(self, side: Side, src: PeerAddr, data: Seq<u8>) -> GatewayPair {
        if data.len() < 4 {
            self
        } else if data[3] == PacketType::PushData.id() && data.len() >= 12 {
            self.seen(side, src).token_taken()
        } else if data[3] == PacketType::PullData.id() && data.len() >= 12 {
            self.seen(side, src)
        } else {
            self
        }
    }

    /// What the endpoint `side` does about a datagram. The version byte is
    /// not looked at.
    pub open spec fn action_on(self, side: Side, src: PeerAddr, data: Seq<u8>) -> RelayModel {
        if data.len() < 4 {
            RelayModel::Dropped(DropReason::TooShort { len: data.len() as usize })
        } else {
            let token = token_of(data);
            let id = data[3];
            match PacketType::of_id(id) {
                None => RelayModel::Dropped(DropReason::UnknownKind { id }),
                Some(PacketType::PushData) => if data.len() < 12 {
                    RelayModel::Dropped(DropReason::MissingGatewayEui { id })
                } else {
                    let (dest, datagram) = self.seen(side, src).uplink_for(
                        side.peer(),
                        data.subrange(12, data.len() as int),
                    );
                    RelayModel::Relay { ack: push_ack_bytes(token), dest, datagram }
                },
                Some(PacketType::PullData) => if data.len() < 12 {
                    RelayModel::Dropped(DropReason::MissingGatewayEui { id })
                } else {
                    RelayModel::Acknowledge { ack: pull_ack_bytes(token) }
                },
                Some(PacketType::PullResp) => RelayModel::Transmit {
                    body: data.subrange(4, data.len() as int),
                    tx_ack: tx_ack_bytes(token, side.eui_spec()),
                },
                Some(PacketType::TxAck) => RelayModel::Dropped(DropReason::UnexpectedTxAck),
                Some(_) => RelayModel::Ignored,
            }
        }
    }

    /// A pair that has seen neither bridge yet.
    pub fn new(default_a: PeerAddr, default_b: PeerAddr) -> (pair: Self)
        ensures
            pair == (GatewayPair {
                bridge_a: None,
                bridge_b: None,
                default_a,
                default_b,
                next_token: FIRST_TOKEN,
            }),
    {
        GatewayPair { bridge_a: None, bridge_b: None, default_a, default_b, next_token: FIRST_TOKEN }
    }

    /// Where datagrams for the bridge of a side go.
    pub fn bridge_addr(&self, side: Side) -> (dest: PeerAddr)
        ensures
            dest == self.bridge_dest(side),
    {
        let (seen, default) = match side {
            Side::A => (self.bridge_a, self.default_a),
            Side::B => (self.bridge_b, self.default_b),
        };
        match seen {
            Some(addr) => addr,
            None => default,
        }
    }

    /// Records where the bridge of a side was seen.
    pub fn note_bridge(&mut self, side: Side, addr: PeerAddr)
        ensures
            *final(self) == old(self).seen(side, addr),
    {
        match side {
            Side::A => {
                self.bridge_a = Some(addr);
            },
            Side::B => {
                self.bridge_b = Some(addr);
            },
        }
    }

    /// Gives out the next token. Tokens go up by one and wrap at 16 bits.
    pub fn take_token(&mut self) -> (token: u16)
        ensures
            token == old(self).next_token,
            *final(self) == old(self).token_taken(),
    {
        let token = self.next_token;
        self.next_token = token.wrapping_add(1);
        token
    }

    /// Builds the PUSH_DATA that carries a body to the bridge of `to`, under
    /// a fresh token and the gateway identifier of `to`. It is sent from the
    /// socket of `to`.
    pub fn relay_uplink(&mut self, to: Side, body: &[u8]) -> (forward: Outgoing)
        ensures
            (forward.dest, forward.datagram@) == old(self).uplink_for(to, body@),
            *final(self) == old(self).token_taken(),
    {
        let dest = self.bridge_addr(to);
        let token = self.take_token();
        let eui = to.eui();
        Outgoing { dest, datagram: GwmpPacket::push_data(token, &eui, body) }
    }

    /// Builds the PULL_DATA keepalive of an endpoint, for its own bridge.
    pub fn keepalive(&mut self, side: Side) -> (ping: Outgoing)
        ensures
            ping.dest == old(self).bridge_dest(side),
            ping.datagram@ == pull_data_bytes(old(self).next_token, side.eui_spec()),
            *final(self) == old(self).token_taken(),
    {
        let dest = self.bridge_addr(side);
        let token = self.take_token();
        let eui = side.eui();
        Outgoing { dest, datagram: GwmpPacket::pull_data(token, &eui) }
    }

    /// Decides what the endpoint `side` does about a datagram from `src`:
    /// one step of its receive loop.
    pub fn receive(&mut self, side: Side, src: PeerAddr, data: &[u8]) -> (action: RelayAction)
        ensures
            action@ == old(self).action_on(side, src, data@),
            *final(self) == old(self).after_receive(side, src, data@),
    {
        if data.len() < 4 {
            return RelayAction::Dropped(DropReason::TooShort { len: data.len() });
        }
        let token: u16 = 0x100 * (data[1] as u16) + (data[2] as u16);
        let id = data[3];
        let kind = match PacketType::from_id(id) {
            None => {
                return RelayAction::Dropped(DropReason::UnknownKind { id });
            },
            Some(kind) => kind,
        };
        match kind {
            PacketType::PushData => {
                if data.len() < 12 {
                    return RelayAction::Dropped(DropReason::MissingGatewayEui { id });
                }
                self.note_bridge(side, src);
                let ack = GwmpPacket::push_ack(token);
                let body = copy_range(data, 12, data.len());
                let forward = self.relay_uplink(side.other(), body.as_slice());
                RelayAction::Relay { ack, forward }
            },
            PacketType::PullData => {
                if data.len() < 12 {
                    return RelayAction::Dropped(DropReason::MissingGatewayEui { id });
                }
                self.note_bridge(side, src);
                RelayAction::Acknowledge { ack: GwmpPacket::pull_ack(token) }
            },
            PacketType::PullResp => {
                let eui = side.eui();
                RelayAction::Transmit {
                    body: copy_range(data, 4, data.len()),
                    tx_ack: GwmpPacket::tx_ack(token, &eui),
                }
            },
            PacketType::TxAck => RelayAction::Dropped(DropReason::UnexpectedTxAck),
            PacketType::PushAck => RelayAction::Ignored,
            PacketType::PullAck => RelayAction::Ignored,
        }
    }
}

/// Every PUSH_DATA that the bridge of one side delivers is relayed exactly
/// once: as one PUSH_DATA to the bridge of the other side, which carries the
/// gateway identifier of that other side and the body of the first, byte for
/// byte.
pub proof fn lemma_push_data_relayed(pair: GatewayPair, side: Side, src: PeerAddr, data: Seq<u8>)
    requires
        data.len() >= 12,
        data[3] == PacketType::PushData.id(),
    ensures
        pair.action_on(side, src, data) matches RelayModel::Relay { ack, dest, datagram } && {
            &&& ack == push_ack_bytes(token_of(data))
            &&& dest == pair.seen(side, src).bridge_dest(side.peer())
            &&& datagram.len() == data.len()
            &&& PacketType::of_id(datagram[3]) == Some(PacketType::PushData)
            &&& datagram.subrange(4, 12) == side.peer().eui_spec()
            &&& datagram.subrange(12, datagram.len() as int) == data.subrange(
                12,
                data.len() as int,
            )
        },
{
    let body = data.subrange(12, data.len() as int);
    crate::udp::protocol::lemma_push_data_layout(pair.next_token, side.peer().eui_spec(), body);
}

/// The fields of a transmit request that its relay reads, each as far as
/// the request holds it.
#[derive(Debug, Clone)]
pub struct RelayTxpk {
    /// Frequency in MHz.
    pub freq: Option<Decimal>,
    /// Data rate identifier.
    pub datr: Option<String>,
    /// Coding rate.
    pub codr: Option<String>,
    /// Size of the PHY payload in bytes.
    pub size: Option<u64>,
    /// The PHY payload in base64.
    pub data: Option<String>,
}

/// The frequency of a relayed packet whose request names none: 902.3 MHz, in
/// millionths of a MHz.
pub const DEFAULT_FREQ_MILLIONTHS: i64 = 902_300_000;

/// The signal strength of every relayed packet in dBm.
pub const RELAY_RSSI_DBM: i32 = -60;

/// The signal-to-noise ratio of every relayed packet: 8.0 dB, in millionths
/// of a dB.
pub const RELAY_SNR_MILLIONTHS: i64 = 8_000_000;

/// A text, or another where it is missing.
pub open spec fn text_or(text: Option<String>, default: Seq<char>) -> Seq<char> {
    match text {
        Some(t) => t@,
        None => default,
    }
}

/// Whether a received packet is what the peer gateway hears of a transmit
/// request: frequency, data rate, coding rate, size and data as requested,
/// LoRa modulation, a good signal, timestamp zero, and nothing else. Fields
/// that the request lacks take their defaults, and the size keeps its low 16
/// bits.
pub open spec fn is_relayed(rxpk: Rxpk, txpk: RelayTxpk) -> bool {
    &&& rxpk.freq == match txpk.freq {
        Some(freq) => freq,
        None => Decimal { millionths: DEFAULT_FREQ_MILLIONTHS },
    }
    &&& rxpk.datr@ == text_or(txpk.datr, "SF7BW125"@)
    &&& string_of(rxpk.codr) == Some(text_or(txpk.codr, "4/5"@))
    &&& rxpk.size == match txpk.size {
        Some(size) => (size % 0x1_0000) as u16,
        None => 0u16,
    }
    &&& rxpk.data@ == text_or(txpk.data, ""@)
    &&& string_of(rxpk.modu) == Some("LORA"@)
    &&& rxpk.rssi.millionths == RELAY_RSSI_DBM * 1_000_000
    &&& rxpk.lsnr == Some(Decimal { millionths: RELAY_SNR_MILLIONTHS })
    &&& rxpk.tmst == Some(0u64)
    &&& rxpk.time.is_none()
    &&& rxpk.tmms.is_none()
    &&& rxpk.chan.is_none()
    &&& rxpk.rfch.is_none()
}

fn owned_or(text: &Option<String>, default: &str) -> (out: String)
    ensures
        out@ == text_or(*text, default@),
{
    match text {
        Some(t) => t.clone(),
        None => default.to_owned(),
    }
}

/// Turns a transmit request into the packet that the peer gateway receives:
/// what one side sends down is what the other side hears.
pub fn txpk_to_rxpk(txpk: &RelayTxpk) -> (rxpk: Rxpk)
    ensures
        is_relayed(rxpk, *txpk),
{
    let freq = match txpk.freq {
        Some(freq) => freq,
        None => Decimal::from_millionths(DEFAULT_FREQ_MILLIONTHS),
    };
    let size: u16 = match txpk.size {
        Some(size) => (size % 0x1_0000) as u16,
        None => 0,
    };
    Rxpk {
        time: None,
        tmst: Some(0),
        tmms: None,
        chan: None,
        rfch: None,
        freq,
        lsnr: Some(Decimal::from_millionths(RELAY_SNR_MILLIONTHS)),
        rssi: Decimal::from_units(RELAY_RSSI_DBM),
        modu: Some("LORA".to_owned()),
        datr: owned_or(&txpk.datr, "SF7BW125"),
        codr: Some(owned_or(&txpk.codr, "4/5")),
        size,
        data: owned_or(&txpk.data, ""),
    }
}

} // verus!
