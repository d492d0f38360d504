//! The Helium network, as far as it is configured.

use vstd::prelude::*;
use crate::config::HeliumConfig;

verus! {

/// A client of the Helium network. It holds its configuration and does
/// nothing with it yet.
pub struct HeliumClient {
    config: HeliumConfig,
}

impl HeliumClient {
    /// The configuration that the client was made with.
    pub closed spec fn config(&self) -> HeliumConfig {
        self.config
    }

    /// A client for the given configuration.
    pub fn new(config: HeliumConfig) -> (client: Self)
        ensures
            client.config() == config,
    {
        HeliumClient { config }
    }

    /// The organisation identifier that the client is configured for.
    pub fn oui(&self) -> (oui: u64)
        ensures
            oui == self.config().oui,
    {
        self.config.oui
    }
}

} // verus!
