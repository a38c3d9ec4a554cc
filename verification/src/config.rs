//! Node configuration.

use vstd::prelude::*;

verus! {

/// Connection settings of the node.  The defaults match the development
/// environment; a deployment overrides them before startup.
#[derive(Clone, Copy, Debug)]
pub struct Config {
    pub wifi_ssid: &'static str,
    pub wifi_psk: &'static str,
    pub mqtt_broker_url: &'static str,
}

impl Default for Config {
    fn default() -> (c: Config)
        ensures
            c.wifi_ssid@ == "Wokwi-GUEST"@,
            c.wifi_psk@ == ""@,
            c.mqtt_broker_url@ == ""@,
    {
        Config { wifi_ssid: "Wokwi-GUEST", wifi_psk: "", mqtt_broker_url: "" }
    }
}

} // verus!
