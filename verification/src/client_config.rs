use vstd::prelude::*;

verus! {

/// Mathematical model of `ClientConfig`.
pub ghost struct ClientConfigV {
    pub endpoint: Seq<char>,
}

/// Where a reporting node sends its observations.  Parsing the TOML
/// configuration file is done by the binary; the library holds the value.
#[derive(Clone, Debug)]
pub struct ClientConfig {
    endpoint: String,
}

impl View for ClientConfig {
    type V = ClientConfigV;

    closed spec fn view(&self) -> ClientConfigV {
        ClientConfigV { endpoint: self.endpoint@ }
    }
}

impl ClientConfig {
    pub fn new(endpoint: String) -> (r: ClientConfig)
        ensures
            r@.endpoint == endpoint@,
    {
        ClientConfig { endpoint }
    }

    pub fn endpoint(&self) -> (r: &String)
        ensures
            r@ == self@.endpoint,
    {
        &self.endpoint
    }
}

} // verus!
