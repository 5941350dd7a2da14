//! The configuration surface the core consumes: broker endpoint, timing
//! and topic prefixes, with the documented defaults. Reading and decoding
//! the configuration file happen at the runtime's edge.

use vstd::prelude::*;

verus! {

/// The whole configuration.
pub struct Config {
    pub daemon: Daemon,
    pub mqtt: Mqtt,
}

/// Daemon-side settings.
pub struct Daemon {
    /// Fixed interval in minutes to report status to the broker.
    pub interval_in_minutes: u16,
}

impl Daemon {
    /// The default status interval: five minutes.
    pub fn default_interval_in_minutes() -> (r: u16)
        ensures
            r == 5,
    {
        5
    }
}

/// Broker-side settings.
pub struct Mqtt {
    /// The hostname or address of the broker.
    pub hostname: String,
    /// The TCP port the broker listens on.
    pub port: u16,
    /// Maximum period in seconds between ping messages to the broker.
    pub keep_alive: u64,
    /// Whether to wrap the connection in TLS.
    pub tls: bool,
    /// A certificate-authority file to verify the broker against.
    pub tls_ca_cert: Option<String>,
    /// The broker user name, where the broker authenticates.
    pub username: Option<String>,
    /// The broker password, where the broker authenticates.
    pub password: Option<String>,
    /// The prefix the discovery consumer listens under.
    pub discovery_prefix: String,
    /// The base topic under which the sensor topics are built.
    pub base_topic: String,
}

impl Mqtt {
    /// The default broker host.
    pub fn default_hostname() -> (r: String)
        ensures
            r@ == "localhost"@,
    {
        String::from_str("localhost")
    }

    /// The default broker port.
    pub fn default_port() -> (r: u16)
        ensures
            r == 1883,
    {
        1883
    }

    /// The default keep-alive period in seconds.
    pub fn default_keep_alive() -> (r: u64)
        ensures
            r == 60,
    {
        60
    }

    /// TLS is off by default.
    pub fn default_tls() -> (r: bool)
        ensures
            r == false,
    {
        false
    }

    /// The default discovery prefix.
    pub fn default_discovery_prefix() -> (r: String)
        ensures
            r@ == "homeassistant"@,
    {
        String::from_str("homeassistant")
    }

    /// The default base topic.
    pub fn default_base_topic() -> (r: String)
        ensures
            r@ == "home/nodes"@,
    {
        String::from_str("home/nodes")
    }
}

} // verus!
