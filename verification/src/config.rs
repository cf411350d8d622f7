use vstd::prelude::*;

verus! {

/// The settings of the whole application.
#[derive(Debug)]
pub struct Config {
    /// The configured devices, each under its id.
    pub ebc: Vec<(String, EbcConfig)>,
    pub server: ServerConfig,
}

/// How to reach one device.
#[derive(Debug, Clone)]
pub struct EbcConfig {
    pub port: String,
}

/// Where the web server listens.
#[derive(Debug)]
pub struct ServerConfig {
    pub listen_address: String,
    pub port: u16,
}

} // verus!
