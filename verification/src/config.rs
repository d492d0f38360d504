//! Configuration of the bridge.

use vstd::prelude::*;

verus! {

/// The whole configuration.
#[derive(Debug)]
pub struct Config {
    pub udp: UdpConfig,
    pub lorawan: LorawanConfig,
    pub urbit: Option<UrbitConfig>,
    pub helium: Option<HeliumConfig>,
    pub logging: LoggingConfig,
}

/// Where the UDP server listens.
#[derive(Debug)]
pub struct UdpConfig {
    pub bind: String,
}

/// How LoRaWAN frames are treated.
#[derive(Debug)]
pub struct LorawanConfig {
    pub decrypt_payload: bool,
}

/// The upstream host and the agent on it.
#[derive(Debug, Clone)]
pub struct UrbitConfig {
    pub url: String,
    pub ship: String,
    pub code: String,
    pub agent: String,
}

/// The Helium network.
#[derive(Debug, Clone)]
pub struct HeliumConfig {
    pub oui: u64,
    pub net_id: String,
    pub config_host: String,
    pub delegate_keypair: String,
}

/// What is logged.
#[derive(Debug)]
pub struct LoggingConfig {
    pub level: String,
}

impl Default for Config {
    /// Listen on every interface at port 1680, decrypt nothing, log at
    /// "info", and know neither an upstream host nor Helium.
    fn default() -> (config: Self)
        ensures
            config.udp.bind@ == "0.0.0.0:1680"@,
            !config.lorawan.decrypt_payload,
            config.urbit.is_none(),
            config.helium.is_none(),
            config.logging.level@ == "info"@,
    {
        Config {
            udp: UdpConfig { bind: "0.0.0.0:1680".to_owned() },
            lorawan: LorawanConfig { decrypt_payload: false },
            urbit: None,
            helium: None,
            logging: LoggingConfig { level: "info".to_owned() },
        }
    }
}

} // verus!
