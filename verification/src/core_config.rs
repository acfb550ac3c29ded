//! The configuration of the core that also names its private key, and its settings.

use vstd::prelude::*;
use crate::config::{DEFAULT_CORE_DB_PATH, DEFAULT_SERVER_KEY_PATH};
use crate::handler_enums;
use crate::shared::HandlerType;

verus! {

/// The configuration of the core: which interfaces run, whether the configuration is
/// kept on disk, where the registry is, and where the core's private key is.
#[derive(Debug)]
pub struct CoreConfig {
    pub active_handlers: Vec<HandlerType>,
    pub persistent_config: bool,
    pub core_db_path: String,
    pub server_key_path: String,
}

/// Whether `c` is the default configuration but for whether it is kept on disk.
pub open spec fn is_default_but_persistence(c: CoreConfig) -> bool {
    &&& c.active_handlers@ == seq![HandlerType::All]
    &&& c.core_db_path@ == DEFAULT_CORE_DB_PATH@
    &&& c.server_key_path@ == DEFAULT_SERVER_KEY_PATH@
}

impl Default for CoreConfig {
    /// Every interface, kept on disk, with the registry and the key at their default paths.
    fn default() -> (r: Self)
        ensures
            is_default_but_persistence(r),
            r.persistent_config,
    {
        let r = CoreConfig {
            active_handlers: vec![HandlerType::All],
            persistent_config: true,
            core_db_path: String::from_str(DEFAULT_CORE_DB_PATH),
            server_key_path: String::from_str(DEFAULT_SERVER_KEY_PATH),
        };
        proof {
            assert(r.active_handlers@ =~= seq![HandlerType::All]);
        }
        r
    }
}

impl CoreConfig {
    /// The configuration that the core runs with when none could be loaded: the default
    /// one, kept on disk only if storing it succeeded.
    pub fn after_failed_load(stored: bool) -> (r: Self)
        ensures
            is_default_but_persistence(r),
            r.persistent_config == stored,
    {
        let mut config: CoreConfig = CoreConfig::default();
        if !stored {
            config.persistent_config = false;
        }
        config
    }
}

/// The settings of the core: the interfaces it serves.
#[derive(Debug)]
pub struct CoreSettings {
    handler: Vec<handler_enums::HandlerType>,
}

impl CoreSettings {
    /// Settings that serve `handler`.
    pub fn new(handler: Vec<handler_enums::HandlerType>) -> (r: Self)
        ensures
            r.handler() == handler@,
    {
        CoreSettings { handler }
    }

    /// The interfaces served.
    pub closed spec fn handler(&self) -> Seq<handler_enums::HandlerType> {
        self.handler@
    }

    /// The interfaces served.
    pub fn handlers(&self) -> (r: &Vec<handler_enums::HandlerType>)
        ensures
            r@ == self.handler(),
    {
        &self.handler
    }
}

} // verus!
