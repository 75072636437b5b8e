//! The service state, in two stages.
//!
//! A [`Cdn`] starts out [`Disconnected`]: it holds the store, the cache
//! protocol and the configuration, and no cache connection. [`Cdn::connect`]
//! consumes it and returns a [`Connected`] one. Only that stage has
//! [`Cdn::redis`], so no cache call can be written before the connection is
//! made, and none can find the connection missing.

use crate::cache::Cache;
use crate::config::CdnConfig;
use crate::storage::Storage;
use vstd::prelude::*;

verus! {

/// The stage before the cache connection is made.
#[derive(Debug, Clone, Copy, PartialEq, Eq)]
pub struct Disconnected;

/// The stage that holds the live cache connection, of type `C`.
#[derive(Debug, PartialEq, Eq)]
pub struct Connected<C> {
    connection: C,
}

impl<C> Connected<C> {
    /// The connection held.
    pub closed spec fn connection(&self) -> C {
        self.connection
    }
}

/// The state shared by all handlers.
#[derive(Debug, PartialEq, Eq)]
pub struct Cdn<State = Disconnected> {
    pub storage: Storage,
    pub cache: Cache,
    pub config: CdnConfig,
    pub state: State,
}

impl Cdn<Disconnected> {
    /// The state before the cache connection is made.
    pub fn new(storage: Storage, cache: Cache, config: CdnConfig) -> (cdn: Self)
        ensures
            cdn.storage == storage,
            cdn.cache == cache,
            cdn.config == config,
    {
        Cdn { storage, cache, config, state: Disconnected }
    }

    /// Takes the live connection and moves to the connected stage. Store,
    /// cache protocol and configuration pass through unchanged.
    pub fn connect<C>(self, connection: C) -> (cdn: Cdn<Connected<C>>)
        ensures
            cdn.storage == self.storage,
            cdn.cache == self.cache,
            cdn.config == self.config,
            cdn.state.connection() == connection,
    {
        Cdn {
            storage: self.storage,
            cache: self.cache,
            config: self.config,
            state: Connected { connection },
        }
    }
}

impl<C> Cdn<Connected<C>> {
    /// The live cache connection.
    pub fn redis(&self) -> (connection: &C)
        ensures
            *connection == self.state.connection(),
    {
        &self.state.connection
    }
}

} // verus!
