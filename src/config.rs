use vstd::prelude::*;

verus! {

/// The settings that the service reads at startup.
pub struct Config {
    /// The bearer token for the network's API.
    pub access_token: String,
}

impl Config {
    pub fn new(access_token: String) -> (r: Config)
        ensures
            r.access_token == access_token,
    {
        Config { access_token }
    }
}

} // verus!
