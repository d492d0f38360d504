//! A bridge between LoRa gateways speaking the Semtech packet-forwarder
//! protocol and an application host: wire codecs, the gateway-session state
//! machine, downlink scheduling and the gateway-pair relay, each with a
//! machine-checked contract.

pub mod config;
pub mod encoding;
pub mod helium;
pub mod json;
pub mod lorawan;
pub mod outbound;
pub mod pair;
pub mod udp;
pub mod urbit;
