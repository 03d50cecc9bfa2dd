//! The service's shared state: its settings and its connection pool.
use vstd::prelude::*;
use crate::config::{Config, HaveConfig};

verus! {

/// The settings and the store of a running service; `P` is the pool of
/// connections to the store.
pub struct Hub<P> {
    config: Config,
    db_pool: P,
}

impl<P> Hub<P> {
    /// The state of a service with these settings and this pool.
    pub fn create(config: Config, db_pool: P) -> (hub: Hub<P>)
        ensures
            hub.config_spec() == config,
            hub.pool_spec() == db_pool,
    {
        Hub { config, db_pool }
    }

    /// The pool of connections to the store.
    pub fn db_pool(&self) -> (p: &P)
        ensures
            *p == self.pool_spec(),
    {
        &self.db_pool
    }
}

impl<P> Hub<P> {
    pub closed spec fn pool_spec(&self) -> P {
        self.db_pool
    }
}

impl<P> HaveConfig for Hub<P> {
    closed spec fn config_spec(&self) -> Config {
        self.config
    }

    fn config(&self) -> (c: &Config) {
        &self.config
    }
}

} // verus!
