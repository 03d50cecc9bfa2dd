//! The settings the service runs with.
use vstd::prelude::*;

verus! {

/// The service's settings: the key its tokens are signed with.
#[derive(Debug, Clone)]
pub struct Config {
    pub jwt_secret_key: String,
}

/// Something that holds the service's settings.
pub trait HaveConfig {
    /// The settings held.
    spec fn config_spec(&self) -> Config;

    fn config(&self) -> (c: &Config)
        ensures
            *c == self.config_spec(),
    ;
}

} // verus!
