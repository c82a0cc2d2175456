use vstd::prelude::*;

verus! {

/// Mathematical model of `ServerConfig`.
pub ghost struct ServerConfigV {
    pub address: Seq<char>,
    pub port: int,
}

/// Listen address and port of the collecting server.  Parsing the TOML
/// configuration file is done by the binary; the library holds the values.
#[derive(Clone, Debug)]
pub struct ServerConfig {
    address: String,
    port: u16,
}

impl View for ServerConfig {
    type V = ServerConfigV;

    closed spec fn view(&self) -> ServerConfigV {
        ServerConfigV { address: self.address@, port: self.port as int }
    }
}

impl ServerConfig {
    pub fn new(address: String, port: u16) -> (r: ServerConfig)
        ensures
            r@.address == address@,
            r@.port == port,
    {
        ServerConfig { address, port }
    }

    pub fn address(&self) -> (r: &String)
        ensures
            r@ == self@.address,
    {
        &self.address
    }

    pub fn port(&self) -> (r: &u16)
        ensures
            *r == self@.port,
    {
        &self.port
    }
}

} // verus!
